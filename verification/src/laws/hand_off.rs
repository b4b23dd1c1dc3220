//! What reaches the host: from the selected node, the typed line and herdr's answers to the words of
//! the two herdr command lines.

use crate::controller::runner::{
    answered_pane, opened, pane_answered, pressed, run, tab_answered, CreateTabView,
    RunInPaneView, Step, StepView, TabReply,
};
use crate::controller::{
    Effects, Modal, ModalView, PromptMode, PromptState, PromptView, Session,
};
use crate::input::{KeyCode, KeyEvent};
use crate::laws::host_calls;
use crate::launch::flag_safe;
use crate::paths::{
    entry, is_entry_name, is_portable, parent_bytes, path_buf_bytes, portable_parent, settled,
};
use crate::prompt::Line;
use crate::runner::{
    guarded, label_of, run_directory, usable_pane, RootPane, TabCreated, TabCreatedResult,
    LABEL_MAX,
};
use crate::text::{is_white_space, trimmed};
use crate::tree::{Node, NodeKind, NodeView};
use vstd::prelude::*;
use vstd::utf8::{decode_utf8, valid_utf8};

verus! {

// What is read.

/// A tree node is read as its own path and kind, a prompt and what stands over the viewer field by
/// field, and a step as the request it carries.
pub proof fn what_is_read_is_what_is_there(
    node: Node,
    prompt: PromptState,
    modal: Modal,
    step: Step,
)
    ensures
        node@.path == path_buf_bytes(&node.path),
        node@.kind == node.kind,
        prompt@ == (PromptView {
            mode: prompt.mode,
            line: prompt.input@,
            saved_scroll: prompt.saved_scroll,
        }),
        modal@ == (match modal {
            Modal::Closed => ModalView::Closed,
            Modal::Picker => ModalView::Picker,
            Modal::Finder => ModalView::Finder,
            Modal::Prompt(prompt) => ModalView::Prompt(prompt@),
        }),
        step@ == (match step {
            Step::Done(effects) => StepView::Done(effects),
            Step::CreateTab(request) => StepView::CreateTab(request@),
            Step::RunInPane(request) => StepView::RunInPane(request@),
        }),
{
}

/// What a session shows of its prompt is the text typed there, and nothing where none is open.
pub proof fn the_query_is_the_text_in_the_prompt(s: Session)
    ensures
        s.modal matches ModalView::Prompt(prompt) ==> s.query() == prompt.line.text,
        !(s.modal is Prompt) ==> s.query().len() == 0,
{
}

/// A session is well-formed exactly where the cursor of an open prompt stands in its text, the walk
/// stands in the history, and the history has at most fifty entries and no two equal neighbours.
pub proof fn when_a_session_is_well_formed(s: Session)
    ensures
        s.wf() <==> {
            &&& s.modal matches ModalView::Prompt(prompt) ==> 0 <= prompt.line.cursor
                <= prompt.line.text.len()
            &&& s.position matches Some(i) ==> i < s.history.len()
            &&& s.history.len() <= 50
            &&& forall|i: int| 0 < i < s.history.len() ==> #[trigger] s.history[i] != s.history[i
                - 1]
        },
{
}

// Where a command runs.

/// With a directory selected the target is that directory, byte for byte.
pub proof fn a_selected_directory_is_the_target(s: Session, path: Seq<u8>)
    requires
        s.selected == Some(NodeView { path, kind: NodeKind::Dir }),
    ensures
        s.command_target() == Some(path),
{
}

/// With a file selected the target is the directory that the file is an entry of.
pub proof fn a_selected_files_directory_is_the_target(s: Session, dir: Seq<u8>, name: Seq<u8>)
    requires
        is_entry_name(name),
        is_portable(entry(dir, name)),
        s.selected == Some(NodeView { path: entry(dir, name), kind: NodeKind::File }),
    ensures
        s.command_target() == Some(settled(dir)),
{
    crate::paths::the_parent_of_an_entry_is_its_directory(dir, name);
}

/// With any file selected the target is what the platform calls the parent of its path, and with
/// nothing selected there is none.
pub proof fn a_selected_file_runs_in_its_parent(s: Session, path: Seq<u8>)
    ensures
        s.selected is None ==> s.command_target() is None,
        s.selected == Some(NodeView { path, kind: NodeKind::File }) && is_portable(path)
            ==> s.command_target() == portable_parent(path),
        s.selected == Some(NodeView { path, kind: NodeKind::File }) && !is_portable(path)
            ==> s.command_target() == parent_bytes(path),
        run_directory(path, NodeKind::Dir) == Some(path),
        run_directory(path, NodeKind::File) == (if is_portable(path) {
            portable_parent(path)
        } else {
            parent_bytes(path)
        }),
{
}

/// The target depends on the selected node alone.
pub proof fn the_target_depends_on_the_selection_alone(s: Session, t: Session)
    requires
        s.selected == t.selected,
    ensures
        s.command_target() == t.command_target(),
{
}

// How a command is written.

/// Trimming takes white space, and only white space, from the two ends, and takes all of it.
pub proof fn trimming_takes_exactly_the_white_space_at_the_ends(
    before: Seq<char>,
    text: Seq<char>,
    after: Seq<char>,
)
    requires
        forall|i: int| 0 <= i < before.len() ==> is_white_space(#[trigger] before[i]),
        forall|i: int| 0 <= i < after.len() ==> is_white_space(#[trigger] after[i]),
        text.len() > 0 ==> !is_white_space(text[0]) && !is_white_space(text[text.len() - 1]),
    ensures
        trimmed(before + text + after) == text,
    decreases before.len(), after.len(),
{
    let whole = before + text + after;
    if before.len() > 0 {
        assert(whole.first() == before[0]);
        assert(whole.drop_first() =~= before.drop_first() + text + after);
        trimming_takes_exactly_the_white_space_at_the_ends(before.drop_first(), text, after);
    } else if text.len() == 0 {
        if after.len() > 0 {
            assert(whole =~= after);
            assert(whole.drop_first() =~= before + text + after.drop_first());
            trimming_takes_exactly_the_white_space_at_the_ends(before, text, after.drop_first());
        } else {
            assert(whole =~= text);
        }
    } else if after.len() > 0 {
        assert(whole.first() == text[0]);
        assert(whole.last() == after[after.len() - 1]);
        assert(whole.drop_last() =~= before + text + after.drop_last());
        trimming_takes_exactly_the_white_space_at_the_ends(before, text, after.drop_last());
        assert((before + text + after.drop_last()).first() == text[0]);
    } else {
        assert(whole =~= text);
    }
}

/// A label is the command without the white space around it, up to twenty-four characters whole, and
/// beyond that its first twenty-three with an ellipsis behind them.
pub proof fn a_label_shows_the_beginning_of_the_command(
    before: Seq<char>,
    text: Seq<char>,
    after: Seq<char>,
)
    requires
        forall|i: int| 0 <= i < before.len() ==> is_white_space(#[trigger] before[i]),
        forall|i: int| 0 <= i < after.len() ==> is_white_space(#[trigger] after[i]),
        text.len() > 0 ==> !is_white_space(text[0]) && !is_white_space(text[text.len() - 1]),
    ensures
        LABEL_MAX == 24,
        text.len() <= 24 ==> label_of(before + text + after) == text,
        text.len() > 24 ==> label_of(before + text + after) == text.take(23) + seq!['…'],
{
    trimming_takes_exactly_the_white_space_at_the_ends(before, text, after);
    assert(text.take(23).push('…') =~= text.take(23) + seq!['…']);
}

/// What herdr is handed is the command itself, behind one space where it begins with a dash.
pub proof fn a_command_is_handed_over_whole(command: Seq<char>)
    ensures
        command.len() > 0 && command[0] == '-' ==> guarded(command).len() == command.len() + 1
            && guarded(command)[0] == ' ' && guarded(command).skip(1) == command,
        !(command.len() > 0 && command[0] == '-') ==> guarded(command) == command,
{
    assert((seq![' '] + command).skip(1) =~= command);
}

// Which pane it runs in.

/// An identifier is safe exactly where it is not empty and does not begin with a dash.
pub proof fn a_safe_identifier_begins_with_no_dash(id: Seq<char>)
    ensures
        flag_safe(id) <==> id.len() > 0 && id[0] != '-',
{
}

/// The pane is the very identifier in herdr's reply, where that is not empty and begins with no
/// dash.
pub proof fn the_pane_is_the_one_in_the_reply(id: String)
    ensures
        ({
            let reply = TabCreated {
                result: TabCreatedResult { root_pane: Some(RootPane { pane_id: Some(id) }) },
            };
            let pane = if id@.len() > 0 && id@[0] != '-' {
                Some(id@)
            } else {
                None
            };
            &&& usable_pane(Some(reply)) == pane
            &&& answered_pane(TabReply::Answered(Some(reply))) == pane
        }),
{
}

/// A reply that could not be read, one without a pane or without an identifier for it, and a failed
/// call name no pane; and no other answer is without one unless its identifier is unsafe.
pub proof fn without_an_identifier_there_is_no_pane(reply: TabReply)
    ensures
        answered_pane(reply) is Some <==> {
            &&& reply matches TabReply::Answered(Some(created))
            &&& created.result.root_pane matches Some(pane)
            &&& pane.pane_id matches Some(id)
            &&& id@.len() > 0 && id@[0] != '-'
        },
        usable_pane(None) is None,
        forall|created: TabCreated|
            created.result.root_pane is None || created.result.root_pane->0.pane_id is None ==> (
            #[trigger] usable_pane(Some(created))) is None,
{
}

/// The second host call names the pane of the reply, that very string, as its third word, and hands
/// over the command as its fourth.
pub proof fn the_command_runs_in_the_pane_of_the_reply(
    s: Session,
    command: Seq<char>,
    label: Seq<char>,
    cwd: Seq<char>,
    id: String,
)
    requires
        id@.len() > 0 && id@[0] != '-',
    ensures
        ({
            let reply = TabReply::Answered(
                Some(
                    TabCreated {
                        result: TabCreatedResult {
                            root_pane: Some(RootPane { pane_id: Some(id) }),
                        },
                    },
                ),
            );
            let (after, step) = tab_answered(s, CreateTabView { command, cwd, label }, reply);
            &&& after == s
            &&& step matches StepView::RunInPane(request)
            &&& request.label == label
            &&& request.args().len() == 4
            &&& request.args()[0] == "pane"@
            &&& request.args()[1] == "run"@
            &&& request.args()[2] == id@
            &&& command.len() > 0 && command[0] == '-' ==> request.args()[3] == seq![' '] + command
            &&& !(command.len() > 0 && command[0] == '-') ==> request.args()[3] == command
        }),
{
}

/// An answer without a usable pane ends the run with a notice: that the call failed, or that the
/// reply named no pane. Nothing else changes.
pub proof fn without_a_pane_the_run_ends(s: Session, request: CreateTabView, reply: TabReply)
    requires
        !(reply matches TabReply::Answered(Some(created)) && created.result.root_pane matches Some(
            pane,
        ) && pane.pane_id matches Some(id) && id@.len() > 0 && id@[0] != '-'),
    ensures
        tab_answered(s, request, reply).0 == (Session {
            notice: Some(
                if reply is Failed {
                    "Run: herdr could not open a tab"@
                } else {
                    "Run: herdr reported no pane for the new tab"@
                },
            ),
            ..s
        }),
        tab_answered(s, request, reply).1 == StepView::Done(Effects { redraw: true }),
{
}

/// The last answer only sets the notice.
pub proof fn the_last_answer_only_sets_the_notice(s: Session, request: RunInPaneView)
    ensures
        pane_answered(s, request, true) == (Session {
            notice: Some("Running `"@ + request.label + "`"@),
            ..s
        }),
        pane_answered(s, request, false) == (Session {
            notice: Some("Run: herdr could not start the command"@),
            ..s
        }),
{
}

// From the key to the host.

/// Asking for the prompt: a picker or a finder keeps the keys; without herdr, and then without a
/// selection that has a directory, a notice says what is missing; otherwise the prompt opens on an
/// empty line and the walk starts anew.
pub proof fn what_asking_for_the_prompt_does(s: Session)
    ensures
        s.modal is Picker || s.modal is Finder ==> opened(s) == (s, Effects { redraw: false }),
        !(s.modal is Picker || s.modal is Finder) && !s.host ==> opened(s) == (
            Session { notice: Some("Run: needs herdr to open a tab"@), ..s },
            Effects { redraw: true },
        ),
        !(s.modal is Picker || s.modal is Finder) && s.host && s.command_target() is None
            ==> opened(s) == (
            Session { notice: Some("Run: select a file or directory first"@), ..s },
            Effects { redraw: true },
        ),
        !(s.modal is Picker || s.modal is Finder) && s.host && s.command_target() is Some
            ==> opened(s) == (
            Session {
                position: None,
                modal: ModalView::Prompt(
                    PromptView {
                        mode: PromptMode::RunCommand,
                        line: Line { text: Seq::empty(), cursor: 0 },
                        saved_scroll: s.scroll,
                    },
                ),
                ..s
            },
            Effects { redraw: true },
        ),
{
}

/// The words of the first herdr command line.
pub open spec fn creating(cwd: Seq<char>, label: Seq<char>) -> Seq<Seq<char>> {
    seq!["tab"@, "create"@, "--cwd"@, cwd, "--label"@, label, "--focus"@]
}

/// A run with herdr there and a directory `dir` whose path is text asks for a tab in exactly that
/// directory, for exactly that command; of the session only the history changes.
pub proof fn a_run_asks_for_a_tab_in_the_target(s: Session, command: Seq<char>, dir: Seq<u8>)
    requires
        s.host,
        s.command_target() == Some(dir),
        valid_utf8(dir),
    ensures
        run(s, command).1 matches StepView::CreateTab(request) && {
            &&& request.command == command
            &&& request.cwd == decode_utf8(dir)
            &&& request.label == label_of(command)
            &&& request.args() == creating(decode_utf8(dir), label_of(command))
        },
        run(s, command).0 == (Session {
            history: crate::runner::remembered(s.history, command),
            ..s
        }),
{
}

/// A run that cannot ask for a tab says why, the target first, then its text, then herdr, and still
/// remembers the command; nothing else changes.
pub proof fn a_run_without_a_tab_says_why(s: Session, command: Seq<char>)
    requires
        s.command_target() is None || !valid_utf8(s.command_target()->0) || !s.host,
    ensures
        run(s, command) == (
            Session {
                history: crate::runner::remembered(s.history, command),
                notice: Some(
                    if s.command_target() is None {
                        "Run: select a file or directory first"@
                    } else if !valid_utf8(s.command_target()->0) {
                        "Run: directory path is not valid UTF-8"@
                    } else {
                        "Run: needs herdr to open a tab"@
                    },
                ),
                ..s
            },
            StepView::Done(Effects { redraw: true }),
        ),
{
}

/// The tab that a run asks for stands in the selected directory, or in the directory of the selected
/// file: its third word after `tab create` is the text of exactly those bytes.
pub proof fn the_tab_stands_where_the_selection_is(
    s: Session,
    command: Seq<char>,
    reply: TabReply,
    dir: Seq<u8>,
    name: Seq<u8>,
)
    requires
        s.host,
    ensures
        s.selected == Some(NodeView { path: dir, kind: NodeKind::Dir }) && valid_utf8(dir)
            ==> host_calls(s, command, reply).len() >= 1 && host_calls(s, command, reply)[0]
            == creating(decode_utf8(dir), label_of(command)),
        s.selected == Some(NodeView { path: entry(dir, name), kind: NodeKind::File })
            && is_entry_name(name) && is_portable(entry(dir, name)) && valid_utf8(settled(dir))
            ==> host_calls(s, command, reply).len() >= 1 && host_calls(s, command, reply)[0]
            == creating(decode_utf8(settled(dir)), label_of(command)),
{
    if is_entry_name(name) && is_portable(entry(dir, name)) {
        crate::paths::the_parent_of_an_entry_is_its_directory(dir, name);
    }
}

/// Enter runs the whole line, wherever the cursor stands and however the line came about: whatever
/// stands between the white space at its two ends is the command, and the prompt is closed.
pub proof fn enter_runs_the_whole_line(
    s: Session,
    prompt: PromptView,
    key: KeyEvent,
    before: Seq<char>,
    command: Seq<char>,
    after: Seq<char>,
)
    requires
        s.modal == ModalView::Prompt(prompt),
        key.code == KeyCode::Enter,
        prompt.line.text == before + command + after,
        forall|i: int| 0 <= i < before.len() ==> is_white_space(#[trigger] before[i]),
        forall|i: int| 0 <= i < after.len() ==> is_white_space(#[trigger] after[i]),
        command.len() > 0 ==> !is_white_space(command[0]) && !is_white_space(
            command[command.len() - 1],
        ),
    ensures
        command.len() > 0 ==> pressed(s, key) == run(
            Session { modal: ModalView::Closed, ..s },
            command,
        ),
        command.len() == 0 ==> pressed(s, key) == (
            Session { modal: ModalView::Closed, ..s },
            StepView::Done(Effects { redraw: true }),
        ),
{
    trimming_takes_exactly_the_white_space_at_the_ends(before, command, after);
}

/// The same of any line, by what trimming leaves of it.
pub proof fn enter_runs_the_trimmed_line(s: Session, prompt: PromptView, key: KeyEvent)
    requires
        s.modal == ModalView::Prompt(prompt),
        key.code == KeyCode::Enter,
    ensures
        trimmed(prompt.line.text).len() > 0 ==> pressed(s, key) == run(
            Session { modal: ModalView::Closed, ..s },
            trimmed(prompt.line.text),
        ),
        trimmed(prompt.line.text).len() == 0 ==> pressed(s, key) == (
            Session { modal: ModalView::Closed, ..s },
            StepView::Done(Effects { redraw: true }),
        ),
{
}

/// What enter does depends on the text alone: two sessions that differ in the place of the cursor,
/// in what the prompt is for or in the scroll it keeps end up the same and ask for the same.
pub proof fn enter_does_not_depend_on_the_cursor(
    s: Session,
    prompt: PromptView,
    other: PromptView,
    key: KeyEvent,
)
    requires
        s.modal == ModalView::Prompt(prompt),
        other.line.text == prompt.line.text,
        key.code == KeyCode::Enter,
    ensures
        pressed(s, key) == pressed(Session { modal: ModalView::Prompt(other), ..s }, key),
{
}

/// From a line in the prompt to the host: enter on a text with no white space at its ends asks for a
/// tab in the selected directory, labelled with the text, and a reply that names a pane has the very
/// text run there.
pub proof fn enter_hands_the_line_to_the_host(
    s: Session,
    prompt: PromptView,
    key: KeyEvent,
    dir: Seq<u8>,
    id: String,
)
    requires
        s.modal == ModalView::Prompt(prompt),
        key.code == KeyCode::Enter,
        s.host,
        s.selected == Some(NodeView { path: dir, kind: NodeKind::Dir }),
        valid_utf8(dir),
        0 < prompt.line.text.len() <= 24,
        !is_white_space(prompt.line.text[0]),
        !is_white_space(prompt.line.text[prompt.line.text.len() - 1]),
        prompt.line.text[0] != '-',
        id@.len() > 0 && id@[0] != '-',
    ensures
        ({
            let text = prompt.line.text;
            let (asked, step) = pressed(s, key);
            let reply = TabReply::Answered(
                Some(
                    TabCreated {
                        result: TabCreatedResult {
                            root_pane: Some(RootPane { pane_id: Some(id) }),
                        },
                    },
                ),
            );
            &&& asked.history.len() > 0 && asked.history[asked.history.len() - 1] == text
            &&& asked.modal is Closed
            &&& step matches StepView::CreateTab(request)
            &&& request.args() == creating(decode_utf8(dir), text)
            &&& tab_answered(asked, request, reply).1 matches StepView::RunInPane(second)
            &&& second.args() == seq!["pane"@, "run"@, id@, text]
        }),
{
    let text = prompt.line.text;
    crate::text::trimming_a_trimmed_string_changes_nothing(text);
    crate::laws::the_newest_entry_is_the_last_command(s.history, text);
}

} // verus!
