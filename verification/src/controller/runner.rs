//! Run-a-command (`!`): the session controller's half of the hand-off.
//!
//! Opens the prompt, edits its line, walks the history, and on confirm asks for a new herdr tab
//! rooted at the selected directory in which the typed command is run. The host calls themselves
//! are the caller's: a [`Step`] says which one comes next, and [`Controller::tab_answered`] and
//! [`Controller::pane_answered`] take in how it went. The viewer never executes the command.

use super::{Controller, Effects, Modal, ModalView, PromptMode, PromptState, PromptView, Session};
use crate::input::{KeyCode, KeyEvent};
use crate::prompt::{Line, PromptInput};
use crate::runner::{
    history_step, pane_run_args, parse_root_pane_id, push_history, shell_arg, tab_create_args,
    tab_label, target_dir, TabCreated,
};
use std::path::PathBuf;
use vstd::prelude::*;

verus! {

/// The first host call of a run: create a tab for `command`.
#[derive(Debug)]
pub struct CreateTab {
    command: String,
    cwd: String,
    label: String,
}

/// The mathematical reading of a [`CreateTab`].
#[verifier::ext_equal]
pub struct CreateTabView {
    pub command: Seq<char>,
    pub cwd: Seq<char>,
    pub label: Seq<char>,
}

impl View for CreateTab {
    type V = CreateTabView;

    closed spec fn view(&self) -> CreateTabView {
        CreateTabView { command: self.command@, cwd: self.cwd@, label: self.label@ }
    }
}

impl CreateTabView {
    /// The argument vector that herdr is run with.
    pub open spec fn args(self) -> Seq<Seq<char>> {
        seq!["tab"@, "create"@, "--cwd"@, self.cwd, "--label"@, self.label, "--focus"@]
    }
}

impl CreateTab {
    /// The argument vector to run herdr with.
    pub fn args(&self) -> (args: Vec<&str>)
        ensures
            args.deep_view() == self@.args(),
    {
        tab_create_args(self.cwd.as_str(), self.label.as_str())
    }
}

/// The second host call of a run: run a command in the new tab's root pane.
#[derive(Debug)]
pub struct RunInPane {
    pane: String,
    arg: String,
    label: String,
}

/// The mathematical reading of a [`RunInPane`].
#[verifier::ext_equal]
pub struct RunInPaneView {
    pub pane: Seq<char>,
    pub arg: Seq<char>,
    pub label: Seq<char>,
}

impl View for RunInPane {
    type V = RunInPaneView;

    closed spec fn view(&self) -> RunInPaneView {
        RunInPaneView { pane: self.pane@, arg: self.arg@, label: self.label@ }
    }
}

impl RunInPaneView {
    /// The argument vector that herdr is run with.
    pub open spec fn args(self) -> Seq<Seq<char>> {
        seq!["pane"@, "run"@, self.pane, self.arg]
    }
}

impl RunInPane {
    /// The argument vector to run herdr with.
    pub fn args(&self) -> (args: Vec<&str>)
        ensures
            args.deep_view() == self@.args(),
    {
        pane_run_args(self.pane.as_str(), self.arg.as_str())
    }
}

/// What comes next.
#[derive(Debug)]
pub enum Step {
    /// Nothing but the screen.
    Done(Effects),
    /// Run herdr to create a tab, and hand its answer to [`Controller::tab_answered`].
    CreateTab(CreateTab),
    /// Run herdr to start the command, and tell [`Controller::pane_answered`] how it went.
    RunInPane(RunInPane),
}

/// The mathematical reading of a [`Step`].
#[verifier::ext_equal]
pub enum StepView {
    Done(Effects),
    CreateTab(CreateTabView),
    RunInPane(RunInPaneView),
}

impl View for Step {
    type V = StepView;

    open spec fn view(&self) -> StepView {
        match self {
            Step::Done(effects) => StepView::Done(*effects),
            Step::CreateTab(request) => StepView::CreateTab(request@),
            Step::RunInPane(request) => StepView::RunInPane(request@),
        }
    }
}

/// How herdr answered `tab create`.
#[derive(Debug)]
pub enum TabReply {
    /// The call failed.
    Failed,
    /// herdr printed a reply: what it says, or `None` where it could not be read.
    Answered(Option<TabCreated>),
}

/// The effects of a step that changed something on screen.
pub open spec fn redraw() -> Effects {
    Effects { redraw: true }
}

/// The effects of a step that changed nothing.
pub open spec fn noop() -> Effects {
    Effects { redraw: false }
}

/// A session in which the run prompt was asked for. A picker or a finder keeps the keys. Without a
/// host, or with nowhere to run, a notice says so. Otherwise the prompt opens on an empty line, and
/// the history walk starts anew.
pub open spec fn opened(s: Session) -> (Session, Effects) {
    if s.modal is Picker || s.modal is Finder {
        (s, noop())
    } else if !s.host {
        (s.with_notice("Run: needs herdr to open a tab"@), redraw())
    } else if s.command_target() is None {
        (s.with_notice("Run: select a file or directory first"@), redraw())
    } else {
        (
            Session {
                position: None,
                modal: ModalView::Prompt(
                    PromptView {
                        mode: PromptMode::RunCommand,
                        line: Line::empty(),
                        saved_scroll: s.scroll,
                    },
                ),
                ..s
            },
            redraw(),
        )
    }
}

/// The command at a history position; the empty line has none.
pub open spec fn recalled(history: Seq<Seq<char>>, position: Option<nat>) -> Seq<char> {
    match position {
        Some(i) if i < history.len() => history[i as int],
        _ => Seq::empty(),
    }
}

/// A session after a step of the history walk: the recalled command replaces the line whole, with
/// the cursor at its end. At either end of the walk nothing changes.
pub open spec fn walked(s: Session, back: bool) -> (Session, Effects) {
    let next = crate::runner::stepped(s.history.len(), s.position, back);
    if next == s.position {
        (s, noop())
    } else {
        (
            Session { position: next, ..s }.with_line(Line::holding(recalled(s.history, next))),
            redraw(),
        )
    }
}

/// A session in which `command` is to be run. The command enters the history whatever comes of it.
/// A tab is asked for where there is a directory, its path is text, and there is a host; a notice
/// says which of these is missing.
pub open spec fn run(s: Session, command: Seq<char>) -> (Session, StepView) {
    let s = Session { history: crate::runner::remembered(s.history, command), ..s };
    match s.command_target() {
        None => (
            s.with_notice("Run: select a file or directory first"@),
            StepView::Done(redraw()),
        ),
        Some(dir) => if !vstd::utf8::valid_utf8(dir) {
            (
                s.with_notice("Run: directory path is not valid UTF-8"@),
                StepView::Done(redraw()),
            )
        } else if !s.host {
            (s.with_notice("Run: needs herdr to open a tab"@), StepView::Done(redraw()))
        } else {
            (
                s,
                StepView::CreateTab(
                    CreateTabView {
                        command,
                        cwd: vstd::utf8::decode_utf8(dir),
                        label: crate::runner::label_of(command),
                    },
                ),
            )
        },
    }
}

/// What an editing key makes of the prompt's line; `None` for a key that edits nothing.
pub open spec fn edited(line: Line, key: KeyEvent) -> Option<Line> {
    match key.code {
        KeyCode::Char(c) => if key.modifiers.at_most_shift() {
            Some(line.typed(c))
        } else {
            None
        },
        KeyCode::Backspace => Some(line.erased()),
        KeyCode::Left => Some(line.left()),
        KeyCode::Right => Some(line.right()),
        KeyCode::Home => Some(line.home()),
        KeyCode::End => Some(line.end()),
        _ => None,
    }
}

/// A session after a key was pressed in the run prompt. An editing key edits the line, up and down
/// walk the history, enter closes the prompt and runs what the line holds, trimmed (nothing, where
/// nothing is left), escape closes the prompt, and any other key does nothing.
pub open spec fn pressed(s: Session, key: KeyEvent) -> (Session, StepView) {
    match key.code {
        KeyCode::Up => (walked(s, true).0, StepView::Done(walked(s, true).1)),
        KeyCode::Down => (walked(s, false).0, StepView::Done(walked(s, false).1)),
        KeyCode::Enter => {
            let command = crate::text::trimmed(s.query());
            if command.len() == 0 {
                (s.closed(), StepView::Done(redraw()))
            } else {
                run(s.closed(), command)
            }
        },
        KeyCode::Esc => (s.closed(), StepView::Done(redraw())),
        _ => match edited(s.line(), key) {
            Some(line) => (s.with_line(line), StepView::Done(redraw())),
            None => (s, StepView::Done(noop())),
        },
    }
}

/// The pane in which a tab's answer lets the command run.
pub open spec fn answered_pane(reply: TabReply) -> Option<Seq<char>> {
    match reply {
        TabReply::Failed => None,
        TabReply::Answered(reply) => crate::runner::usable_pane(reply),
    }
}

/// A session after herdr answered `tab create`. Where the answer names a usable pane, the command
/// is to be run in it, guarded; otherwise a notice says what went wrong.
pub open spec fn tab_answered(s: Session, request: CreateTabView, reply: TabReply) -> (
    Session,
    StepView,
) {
    match answered_pane(reply) {
        Some(pane) => (
            s,
            StepView::RunInPane(
                RunInPaneView {
                    pane,
                    arg: crate::runner::guarded(request.command),
                    label: request.label,
                },
            ),
        ),
        None => if reply is Failed {
            (s.with_notice("Run: herdr could not open a tab"@), StepView::Done(redraw()))
        } else {
            (
                s.with_notice("Run: herdr reported no pane for the new tab"@),
                StepView::Done(redraw()),
            )
        },
    }
}

/// A session after herdr was asked to start the command: a notice says whether it runs.
pub open spec fn pane_answered(s: Session, request: RunInPaneView, started: bool) -> Session {
    if started {
        s.with_notice("Running `"@ + request.label + "`"@)
    } else {
        s.with_notice("Run: herdr could not start the command"@)
    }
}

impl Controller {
    /// Open the run-a-command prompt (`!`) on an empty line, with the history walk reset.
    ///
    /// Deliberately empty: a line that opens with the last command in it reads like text the user
    /// just typed, so typing a different command would append to it. Repeating is still cheap, the
    /// up arrow recalls it.
    ///
    /// Two gates, each with its own notice: the gesture needs herdr, which opens the tab, and it
    /// needs somewhere to run.
    pub fn open_run_command(&mut self) -> (effects: Effects)
        requires
            old(self).wf(),
        ensures
            final(self).wf(),
            (final(self)@, effects) == opened(old(self)@),
    {
        match &self.modal {
            Modal::Picker | Modal::Finder => {
                return Effects::noop();
            },
            _ => {},
        }
        if !self.herdr {
            self.action_notice = Some("Run: needs herdr to open a tab".to_string());
            return Effects::redraw();
        }
        if self.command_target().is_none() {
            self.action_notice = Some("Run: select a file or directory first".to_string());
            return Effects::redraw();
        }
        self.history_pos = None;
        self.modal =
        Modal::Prompt(
            PromptState {
                mode: PromptMode::RunCommand,
                input: PromptInput::new(),
                saved_scroll: self.content_scroll,
            },
        );
        Effects::redraw()
    }

    /// Walk the session's command history into the prompt's line: `back` toward older commands,
    /// forward toward the newest and then to the empty line the prompt opened on.
    ///
    /// The recalled text replaces the line whole, cursor at the end, ready to run or to edit.
    /// Editing does not move the walk, so a following step continues from where it was.
    pub fn walk_history(&mut self, back: bool) -> (effects: Effects)
        requires
            old(self).wf(),
        ensures
            final(self).wf(),
            (final(self)@, effects) == walked(old(self)@, back),
    {
        let next: Option<usize> = history_step(self.command_history.len(), self.history_pos, back);
        if next == self.history_pos {
            return Effects::noop();
        }
        self.history_pos = next;
        let text = match next {
            Some(i) => self.command_history[i].clone(),
            None => String::new(),
        };
        if let Some(prompt) = self.modal.prompt_mut() {
            prompt.input = PromptInput::with_text(text);
        }
        Effects::redraw()
    }

    /// Key handling while the run prompt is open: any printable character types into the line (a
    /// shell command is arbitrary text, so nothing is filtered), the arrows, `Home` and `End` move
    /// the cursor or walk the history, `Backspace` deletes, `Enter` runs, `Esc` cancels.
    pub fn run_command_key(&mut self, key: KeyEvent) -> (step: Step)
        requires
            old(self).wf(),
        ensures
            final(self).wf(),
            (final(self)@, step@) == pressed(old(self)@, key),
    {
        match key.code {
            KeyCode::Char(c) => {
                if !key.modifiers.types_text() {
                    return Step::Done(Effects::noop());
                }
                if let Some(prompt) = self.modal.prompt_mut() {
                    prompt.input.push(c);
                }
                Step::Done(Effects::redraw())
            },
            KeyCode::Backspace => {
                if let Some(prompt) = self.modal.prompt_mut() {
                    prompt.input.backspace();
                }
                Step::Done(Effects::redraw())
            },
            KeyCode::Left => {
                if let Some(prompt) = self.modal.prompt_mut() {
                    prompt.input.move_left();
                }
                Step::Done(Effects::redraw())
            },
            KeyCode::Right => {
                if let Some(prompt) = self.modal.prompt_mut() {
                    prompt.input.move_right();
                }
                Step::Done(Effects::redraw())
            },
            KeyCode::Up => Step::Done(self.walk_history(true)),
            KeyCode::Down => Step::Done(self.walk_history(false)),
            KeyCode::Home => {
                if let Some(prompt) = self.modal.prompt_mut() {
                    prompt.input.move_home();
                }
                Step::Done(Effects::redraw())
            },
            KeyCode::End => {
                if let Some(prompt) = self.modal.prompt_mut() {
                    prompt.input.move_end();
                }
                Step::Done(Effects::redraw())
            },
            KeyCode::Enter => {
                let command = match self.modal.prompt() {
                    Some(prompt) => prompt.input.query().trim().to_string(),
                    None => String::new(),
                };
                self.modal = Modal::Closed;
                if command.as_str().is_empty() {
                    return Step::Done(Effects::redraw());
                }
                self.run_command(command.as_str())
            },
            KeyCode::Esc => {
                self.modal = Modal::Closed;
                Step::Done(Effects::redraw())
            },
            KeyCode::Other => Step::Done(Effects::noop()),
        }
    }

    /// The directory a command would run in: the selected directory, or the parent of the selected
    /// file. `None` when nothing is selected, or the path has no usable directory.
    pub fn command_target(&self) -> (dir: Option<PathBuf>)
        ensures
            match dir {
                Some(dir) => self@.command_target() == Some(crate::paths::path_buf_bytes(&dir)),
                None => self@.command_target() is None,
            },
    {
        match &self.selected {
            Some(node) => target_dir(node.path.as_path(), node.kind),
            None => None,
        }
    }

    /// Hand `command` to a new herdr tab rooted at the command target: record it, and ask for the
    /// tab.
    ///
    /// A run takes two host calls, `tab create`, whose reply names the new tab's root pane, and
    /// then `pane run`. A failure at either degrades to a notice and leaves the viewer untouched.
    /// The command enters the history whether or not the host calls succeed, so that a retry is
    /// `!`, up, `Enter`. A path that is no text cannot be handed to herdr: that too is a notice,
    /// not a mangled directory.
    pub fn run_command(&mut self, command: &str) -> (step: Step)
        requires
            old(self).wf(),
        ensures
            final(self).wf(),
            (final(self)@, step@) == run(old(self)@, command@),
    {
        proof {
            crate::laws::the_history_stays_without_repeats(self@.history, command@);
        }
        push_history(&mut self.command_history, command);
        let dir = match self.command_target() {
            Some(dir) => dir,
            None => {
                self.action_notice = Some("Run: select a file or directory first".to_string());
                return Step::Done(Effects::redraw());
            },
        };
        let cwd = match dir.as_path().to_str() {
            Some(cwd) => cwd.to_string(),
            None => {
                self.action_notice = Some("Run: directory path is not valid UTF-8".to_string());
                return Step::Done(Effects::redraw());
            },
        };
        if !self.herdr {
            self.action_notice = Some("Run: needs herdr to open a tab".to_string());
            return Step::Done(Effects::redraw());
        }
        let label = tab_label(command);
        Step::CreateTab(CreateTab { command: command.to_string(), cwd, label })
    }

    /// Take in herdr's answer to `tab create`: on to `pane run` in the pane that it names, or a
    /// notice.
    pub fn tab_answered(&mut self, request: CreateTab, reply: TabReply) -> (step: Step)
        requires
            old(self).wf(),
        ensures
            final(self).wf(),
            (final(self)@, step@) == tab_answered(old(self)@, request@, reply),
    {
        let reply = match reply {
            TabReply::Answered(reply) => reply,
            TabReply::Failed => {
                self.action_notice = Some("Run: herdr could not open a tab".to_string());
                return Step::Done(Effects::redraw());
            },
        };
        match parse_root_pane_id(reply) {
            Some(pane) => {
                let arg = shell_arg(request.command.as_str());
                Step::RunInPane(RunInPane { pane, arg, label: request.label })
            },
            None => {
                self.action_notice =
                Some("Run: herdr reported no pane for the new tab".to_string());
                Step::Done(Effects::redraw())
            },
        }
    }

    /// Take in whether herdr started the command, and say so in a notice.
    pub fn pane_answered(&mut self, request: RunInPane, started: bool) -> (effects: Effects)
        requires
            old(self).wf(),
        ensures
            final(self).wf(),
            final(self)@ == pane_answered(old(self)@, request@, started),
            effects == redraw(),
    {
        if !started {
            self.action_notice = Some("Run: herdr could not start the command".to_string());
            return Effects::redraw();
        }
        let mut notice = "Running `".to_string();
        notice.append(request.label.as_str());
        notice.append("`");
        self.action_notice = Some(notice);
        Effects::redraw()
    }
}

} // verus!
