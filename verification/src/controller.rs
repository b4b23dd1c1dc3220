//! The session controller's state, as far as the run gesture reads or writes it.
//!
//! A [`Controller`] is read as a [`Session`]. What each key and each host answer does to it stands
//! in [`runner`].

pub mod runner;

use crate::input::Intent;
use crate::prompt::{Line, PromptInput};
use crate::runner::run_directory;
use crate::tree::{Node, NodeView};
use vstd::prelude::*;

verus! {

/// What the event loop has to do once a key or an intent was handled.
#[derive(Clone, Copy, Debug, PartialEq, Eq, Structural)]
pub struct Effects {
    pub redraw: bool,
}

impl Effects {
    /// Nothing changed on screen.
    pub fn noop() -> (effects: Effects)
        ensures
            !effects.redraw,
    {
        Effects { redraw: false }
    }

    /// The screen has to be drawn again.
    pub fn redraw() -> (effects: Effects)
        ensures
            effects.redraw,
    {
        Effects { redraw: true }
    }
}

/// What a prompt asks for.
#[derive(Clone, Copy, Debug, PartialEq, Eq, Structural)]
pub enum PromptMode {
    GoToLine,
    RunCommand,
}

/// An open prompt: what it asks for, the line typed so far, and where the content stood when it
/// opened.
#[derive(Debug)]
pub struct PromptState {
    pub mode: PromptMode,
    pub input: PromptInput,
    pub saved_scroll: usize,
}

/// The mathematical reading of a [`PromptState`].
#[verifier::ext_equal]
pub struct PromptView {
    pub mode: PromptMode,
    pub line: Line,
    pub saved_scroll: usize,
}

impl View for PromptState {
    type V = PromptView;

    open spec fn view(&self) -> PromptView {
        PromptView { mode: self.mode, line: self.input@, saved_scroll: self.saved_scroll }
    }
}

/// What stands over the tree and the content, and takes the keys.
#[derive(Debug)]
pub enum Modal {
    Closed,
    Picker,
    Finder,
    Prompt(PromptState),
}

/// The mathematical reading of a [`Modal`].
#[verifier::ext_equal]
pub enum ModalView {
    Closed,
    Picker,
    Finder,
    Prompt(PromptView),
}

impl View for Modal {
    type V = ModalView;

    open spec fn view(&self) -> ModalView {
        match self {
            Modal::Closed => ModalView::Closed,
            Modal::Picker => ModalView::Picker,
            Modal::Finder => ModalView::Finder,
            Modal::Prompt(prompt) => ModalView::Prompt(prompt@),
        }
    }
}

impl Modal {
    /// The open prompt, if there is one.
    pub fn prompt(&self) -> (prompt: Option<&PromptState>)
        ensures
            match prompt {
                Some(prompt) => *self == Modal::Prompt(*prompt),
                None => !(self is Prompt),
            },
    {
        match self {
            Modal::Prompt(prompt) => Some(prompt),
            _ => None,
        }
    }

    /// The open prompt, if there is one, to be edited in place.
    pub fn prompt_mut(&mut self) -> (prompt: Option<&mut PromptState>)
        ensures
            match prompt {
                Some(prompt) => {
                    &&& *old(self) == Modal::Prompt(*prompt)
                    &&& *final(self) == Modal::Prompt(*final(prompt))
                },
                None => !(*old(self) is Prompt) && *final(self) == *old(self),
            },
    {
        match self {
            Modal::Prompt(prompt) => Some(prompt),
            _ => None,
        }
    }
}

/// The mathematical reading of a [`Controller`].
#[verifier::ext_equal]
pub struct Session {
    /// What stands over the tree and the content.
    pub modal: ModalView,
    /// herdr is there to open a tab.
    pub host: bool,
    /// The notice in the status line.
    pub notice: Option<Seq<char>>,
    /// Where the walk through the history stands; `None` is the empty line.
    pub position: Option<nat>,
    /// The commands run in this session, the oldest first.
    pub history: Seq<Seq<char>>,
    /// How far the content is scrolled.
    pub scroll: usize,
    /// The tree node under the cursor.
    pub selected: Option<NodeView>,
}

impl Session {
    /// An open prompt's cursor stands within its text, the history walk stands on an entry or the
    /// empty line, and the history is bounded and without equal neighbours.
    pub open spec fn wf(self) -> bool {
        &&& self.modal matches ModalView::Prompt(prompt) ==> prompt.line.wf()
        &&& self.history.len() <= crate::runner::HISTORY_MAX
        &&& crate::runner::no_repeats(self.history)
        &&& self.position matches Some(i) ==> i < self.history.len()
    }

    /// The directory a command would run in.
    pub open spec fn command_target(self) -> Option<Seq<u8>> {
        match self.selected {
            Some(node) => run_directory(node.path, node.kind),
            None => None,
        }
    }

    /// What the open prompt holds; nothing where none is open.
    pub open spec fn query(self) -> Seq<char> {
        match self.modal {
            ModalView::Prompt(prompt) => prompt.line.text,
            _ => Seq::empty(),
        }
    }

    /// The line of the open prompt; an empty one where none is open.
    pub open spec fn line(self) -> Line {
        match self.modal {
            ModalView::Prompt(prompt) => prompt.line,
            _ => Line::empty(),
        }
    }

    /// The same session with another line in its prompt; where no prompt is open, the same session.
    pub open spec fn with_line(self, line: Line) -> Session {
        match self.modal {
            ModalView::Prompt(prompt) => Session {
                modal: ModalView::Prompt(PromptView { line, ..prompt }),
                ..self
            },
            _ => self,
        }
    }

    /// The same session with another notice.
    pub open spec fn with_notice(self, notice: Seq<char>) -> Session {
        Session { notice: Some(notice), ..self }
    }

    /// The same session with nothing over the tree and the content.
    pub open spec fn closed(self) -> Session {
        Session { modal: ModalView::Closed, ..self }
    }
}

/// The state of a viewer session.
#[derive(Debug)]
pub struct Controller {
    modal: Modal,
    herdr: bool,
    action_notice: Option<String>,
    history_pos: Option<usize>,
    command_history: Vec<String>,
    content_scroll: usize,
    selected: Option<Node>,
}

impl View for Controller {
    type V = Session;

    closed spec fn view(&self) -> Session {
        Session {
            modal: self.modal@,
            host: self.herdr,
            notice: self.action_notice.deep_view(),
            position: crate::runner::position(self.history_pos),
            history: self.command_history.deep_view(),
            scroll: self.content_scroll,
            selected: match self.selected {
                Some(node) => Some(node@),
                None => None,
            },
        }
    }
}

impl Controller {
    /// The controller's state is a well-formed session.
    pub open spec fn wf(&self) -> bool {
        self@.wf()
    }

    /// A fresh session without a host, with the tree cursor on `selected`.
    pub fn new(selected: Option<Node>) -> (controller: Controller)
        ensures
            controller.wf(),
            controller@ == (Session {
                modal: ModalView::Closed,
                host: false,
                notice: None,
                position: None,
                history: Seq::empty(),
                scroll: 0,
                selected: match selected {
                    Some(node) => Some(node@),
                    None => None,
                },
            }),
    {
        Controller {
            modal: Modal::Closed,
            herdr: false,
            action_notice: None,
            history_pos: None,
            command_history: Vec::new(),
            content_scroll: 0,
            selected,
        }
    }

    /// Say whether herdr is there to open a tab.
    pub fn set_host(&mut self, present: bool)
        requires
            old(self).wf(),
        ensures
            final(self).wf(),
            final(self)@ == (Session { host: present, ..old(self)@ }),
    {
        self.herdr = present;
    }

    /// Move the tree cursor.
    pub fn select(&mut self, selected: Option<Node>)
        requires
            old(self).wf(),
        ensures
            final(self).wf(),
            final(self)@ == (Session {
                selected: match selected {
                    Some(node) => Some(node@),
                    None => None,
                },
                ..old(self)@
            }),
    {
        self.selected = selected;
    }

    /// Scroll the content.
    pub fn set_content_scroll(&mut self, scroll: usize)
        requires
            old(self).wf(),
        ensures
            final(self).wf(),
            final(self)@ == (Session { scroll, ..old(self)@ }),
    {
        self.content_scroll = scroll;
    }

    /// Put `modal` over the tree and the content.
    pub fn set_modal(&mut self, modal: Modal)
        requires
            old(self).wf(),
            modal matches Modal::Prompt(prompt) ==> prompt.input.wf(),
        ensures
            final(self).wf(),
            final(self)@ == (Session { modal: modal@, ..old(self)@ }),
    {
        self.modal = modal;
    }

    /// What stands over the tree and the content.
    pub fn modal(&self) -> (modal: &Modal)
        ensures
            modal@ == self@.modal,
    {
        &self.modal
    }

    /// Whether a prompt is open.
    pub fn prompt_open(&self) -> (open: bool)
        ensures
            open == (self@.modal is Prompt),
    {
        self.modal.prompt().is_some()
    }

    /// What the open prompt holds; the empty string where none is open.
    pub fn prompt_query(&self) -> (query: String)
        ensures
            query@ == self@.query(),
    {
        match self.modal.prompt() {
            Some(prompt) => prompt.input.query().to_string(),
            None => String::new(),
        }
    }

    /// The notice in the status line.
    pub fn action_notice(&self) -> (notice: Option<&String>)
        ensures
            match notice {
                Some(notice) => self@.notice == Some(notice@),
                None => self@.notice is None,
            },
    {
        self.action_notice.as_ref()
    }

    /// The commands run in this session, the oldest first.
    pub fn command_history(&self) -> (history: &Vec<String>)
        ensures
            history.deep_view() == self@.history,
    {
        &self.command_history
    }

    /// Carry out an intent.
    pub fn handle(&mut self, intent: Intent) -> (effects: Effects)
        requires
            old(self).wf(),
        ensures
            final(self).wf(),
            (final(self)@, effects) == runner::opened(old(self)@),
    {
        match intent {
            Intent::RunCommand => self.open_run_command(),
        }
    }
}

} // verus!
