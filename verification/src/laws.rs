//! What holds of the library as a whole, whatever is typed and however the host answers.

pub mod editing;
pub mod hand_off;
pub mod recall;

use crate::controller::runner::{
    answered_pane, edited, noop, opened, pane_answered, pressed, recalled, redraw, run,
    tab_answered, walked, StepView, TabReply,
};
use crate::controller::{ModalView, PromptMode, PromptView, Session};
use crate::input::{KeyCode, KeyEvent, KeyModifiers};
use crate::launch::flag_safe;
use crate::paths::{components, entry, is_entry_name, is_portable, parent_of, settled, SLASH};
use crate::prompt::Line;
use crate::runner::{
    guarded, label_of, no_repeats, remembered, run_directory, stepped, HISTORY_MAX, LABEL_MAX,
};
use crate::text::{is_trimmed, trimmed};
use crate::tree::{NodeKind, NodeView};
use vstd::prelude::*;

verus! {

// Where a command runs.

/// A file and the directory that holds it have the same target: for any directory and any one name
/// in it, a command launched from the file runs in the directory, written without the separators at
/// its end.
pub proof fn a_file_and_its_directory_have_the_same_target(dir: Seq<u8>, name: Seq<u8>)
    requires
        is_entry_name(name),
        is_portable(entry(dir, name)),
    ensures
        run_directory(entry(dir, name), NodeKind::File) == Some(settled(dir)),
        run_directory(dir, NodeKind::Dir) == Some(dir),
        components(settled(dir)) == components(dir),
        settled(dir) == dir <==> run_directory(entry(dir, name), NodeKind::File) == run_directory(
            dir,
            NodeKind::Dir,
        ),
{
    crate::paths::the_parent_of_an_entry_is_its_directory(dir, name);
    crate::paths::a_settled_path_is_the_same_path(dir);
}

/// A directory always has a target, and a file has one unless it stands at a filesystem root.
pub proof fn only_a_root_file_has_nowhere_to_run(path: Seq<u8>)
    requires
        is_portable(path),
    ensures
        run_directory(path, NodeKind::Dir) is Some,
        run_directory(path, NodeKind::File) is None <==> settled(path) == Seq::<u8>::empty()
            || settled(path) == seq![SLASH],
{
    crate::paths::only_a_root_has_no_parent(path);
}

/// Whether the tree cursor stands on a file or on the directory that holds it makes no difference
/// to the gesture: the prompt opens alike, and a command makes the same host calls and leaves the
/// same notice and history.
pub proof fn selecting_a_file_or_its_directory_is_alike(
    s: Session,
    file: Seq<u8>,
    dir: Seq<u8>,
    command: Seq<char>,
    reply: TabReply,
    started: bool,
)
    ensures
        ({
            let on_file = Session {
                selected: Some(NodeView { path: file, kind: NodeKind::File }),
                ..s
            };
            let on_dir = Session {
                selected: Some(NodeView { path: dir, kind: NodeKind::Dir }),
                ..s
            };
            parent_of(file) == Some(dir) ==> {
                &&& on_file.command_target() == on_dir.command_target()
                &&& opened(on_file).0 == Session {
                    selected: on_file.selected,
                    ..opened(on_dir).0
                }
                &&& opened(on_file).1 == opened(on_dir).1
                &&& host_calls(on_file, command, reply) == host_calls(on_dir, command, reply)
                &&& ran(on_file, command, reply, started) == Session {
                    selected: on_file.selected,
                    ..ran(on_dir, command, reply, started)
                }
            }
        }),
{
}

// The command on its way to the shell.

/// herdr never reads a command as an option of its own: what it is handed does not begin with a
/// dash.
pub proof fn a_guarded_command_is_no_option(command: Seq<char>)
    ensures
        guarded(command).len() > 0 ==> guarded(command)[0] != '-',
{
}

/// The shell still gets exactly the command: the guard puts at most one space before it, and only
/// where it begins with a dash.
pub proof fn the_guard_is_inert(command: Seq<char>)
    ensures
        guarded(command) == command || guarded(command) == seq![' '] + command,
        guarded(command) == command <==> !(command.len() > 0 && command[0] == '-'),
        trimmed(guarded(command)) == trimmed(command),
{
    crate::text::trimming_drops_a_leading_space(command);
}

/// A label has at most [`LABEL_MAX`] characters. It is the trimmed command where that fits, and
/// otherwise the command's beginning with an ellipsis behind it.
pub proof fn a_label_is_the_command_or_its_beginning(command: Seq<char>)
    ensures
        label_of(command).len() <= LABEL_MAX,
        label_of(command) == trimmed(command) <==> trimmed(command).len() <= LABEL_MAX,
        trimmed(command).len() > LABEL_MAX ==> {
            &&& label_of(command).len() == LABEL_MAX
            &&& label_of(command).last() == '…'
            &&& label_of(command).drop_last().is_prefix_of(trimmed(command))
        },
{
}

/// White space around a command makes no difference to its label.
pub proof fn a_label_ignores_white_space_around_the_command(command: Seq<char>)
    ensures
        label_of(trimmed(command)) == label_of(command),
{
    crate::text::trimming_leaves_no_white_space_at_the_ends(command);
}

// The history.

/// The history of a session in which `commands` were run, the first of them first.
pub open spec fn history_of(commands: Seq<Seq<char>>) -> Seq<Seq<char>>
    decreases commands.len(),
{
    if commands.len() == 0 {
        Seq::empty()
    } else {
        remembered(history_of(commands.drop_last()), commands.last())
    }
}

/// `commands` with each run of equal neighbours collapsed into one.
pub open spec fn collapsed(commands: Seq<Seq<char>>) -> Seq<Seq<char>>
    decreases commands.len(),
{
    if commands.len() == 0 {
        Seq::empty()
    } else {
        let before = collapsed(commands.drop_last());
        if before.len() > 0 && before.last() == commands.last() {
            before
        } else {
            before.push(commands.last())
        }
    }
}

/// The last `n` entries, or all of them where there are fewer.
pub open spec fn newest(history: Seq<Seq<char>>, n: nat) -> Seq<Seq<char>> {
    if history.len() <= n {
        history
    } else {
        history.skip(history.len() - n)
    }
}

/// The command just run is the newest entry.
pub proof fn the_newest_entry_is_the_last_command(history: Seq<Seq<char>>, command: Seq<char>)
    ensures
        remembered(history, command).len() > 0,
        remembered(history, command).last() == command,
{
}

/// Running the same command once more adds nothing.
pub proof fn a_repeat_adds_nothing(history: Seq<Seq<char>>, command: Seq<char>)
    ensures
        remembered(remembered(history, command), command) == remembered(history, command),
{
}

/// A history within its bound stays within it.
pub proof fn the_history_stays_bounded(history: Seq<Seq<char>>, command: Seq<char>)
    requires
        history.len() <= HISTORY_MAX,
    ensures
        remembered(history, command).len() <= HISTORY_MAX,
{
}

/// A history without equal neighbours stays one.
pub proof fn the_history_stays_without_repeats(history: Seq<Seq<char>>, command: Seq<char>)
    requires
        no_repeats(history),
    ensures
        no_repeats(remembered(history, command)),
{
}

/// The entries keep their order: the new history is a tail of the old one with the command behind
/// it, and loses at most the oldest entry.
pub proof fn the_history_stays_chronological(history: Seq<Seq<char>>, command: Seq<char>)
    ensures
        ({
            ||| remembered(history, command) == history && history.last() == command
            ||| remembered(history, command) == history.push(command)
            ||| remembered(history, command) == history.push(command).skip(1)
        }),
{
}

/// A session's history is the commands that were run, with repeats collapsed, as far back as
/// [`HISTORY_MAX`] entries reach.
pub proof fn a_history_is_the_newest_commands_without_repeats(commands: Seq<Seq<char>>)
    ensures
        history_of(commands) == newest(collapsed(commands), HISTORY_MAX as nat),
        history_of(commands).len() <= HISTORY_MAX,
        no_repeats(history_of(commands)),
        commands.len() > 0 ==> history_of(commands).len() > 0 && history_of(commands).last()
            == commands.last(),
    decreases commands.len(),
{
    if commands.len() > 0 {
        let before = commands.drop_last();
        a_history_is_the_newest_commands_without_repeats(before);
        the_history_stays_without_repeats(history_of(before), commands.last());
    }
}

// The walk through the history.

/// A position as a place among `len + 1` places: the entries from the oldest on, and behind the
/// newest the empty line.
pub open spec fn place(len: nat, pos: Option<nat>) -> nat {
    match pos {
        Some(i) => i,
        None => len,
    }
}

/// `pos` is an entry or the empty line.
pub open spec fn in_history(len: nat, pos: Option<nat>) -> bool {
    pos matches Some(i) ==> i < len
}

/// The position after `times` steps.
pub open spec fn stepped_times(len: nat, pos: Option<nat>, back: bool, times: nat) -> Option<nat>
    decreases times,
{
    if times == 0 {
        pos
    } else {
        stepped(len, stepped_times(len, pos, back, (times - 1) as nat), back)
    }
}

/// Up moves one place back and stops at the oldest entry; down moves one place on and stops at the
/// empty line. Neither leaves the history.
pub proof fn a_step_moves_one_place(len: nat, pos: Option<nat>)
    requires
        in_history(len, pos),
    ensures
        in_history(len, stepped(len, pos, true)),
        in_history(len, stepped(len, pos, false)),
        place(len, stepped(len, pos, true)) == (if place(len, pos) > 0 {
            place(len, pos) - 1
        } else {
            0
        }),
        place(len, stepped(len, pos, false)) == (if place(len, pos) < len {
            place(len, pos) + 1
        } else {
            len
        }),
{
}

/// The same of any number of steps.
pub proof fn steps_move_that_many_places(len: nat, pos: Option<nat>, times: nat)
    requires
        in_history(len, pos),
    ensures
        in_history(len, stepped_times(len, pos, true, times)),
        in_history(len, stepped_times(len, pos, false, times)),
        place(len, stepped_times(len, pos, true, times)) == (if place(len, pos) > times {
            place(len, pos) - times
        } else {
            0
        }),
        place(len, stepped_times(len, pos, false, times)) == (if place(len, pos) + times < len {
            place(len, pos) + times
        } else {
            len
        }),
    decreases times,
{
    if times > 0 {
        steps_move_that_many_places(len, pos, (times - 1) as nat);
        a_step_moves_one_place(len, stepped_times(len, pos, true, (times - 1) as nat));
        a_step_moves_one_place(len, stepped_times(len, pos, false, (times - 1) as nat));
    }
}

/// From the empty line, up as often as there are entries leads to the oldest, and down as often
/// leads back to the empty line.
pub proof fn the_walk_leads_to_the_oldest_entry_and_back(len: nat)
    ensures
        len > 0 ==> stepped_times(len, None, true, len) == Some(0nat),
        stepped_times(len, stepped_times(len, None, true, len), false, len) is None,
{
    steps_move_that_many_places(len, None, len);
    steps_move_that_many_places(len, stepped_times(len, None, true, len), len);
}

/// Down undoes up, except on the oldest entry, where up did not move.
pub proof fn down_undoes_up(len: nat, pos: Option<nat>)
    requires
        in_history(len, pos),
        pos != Some(0nat),
    ensures
        stepped(len, stepped(len, pos, true), false) == pos,
{
}

/// Up undoes down, except on the empty line, where down did not move.
pub proof fn up_undoes_down(len: nat, pos: Option<nat>)
    requires
        in_history(len, pos),
        pos is Some,
    ensures
        stepped(len, stepped(len, pos, false), true) == pos,
{
}

// The line.

/// A cursor within its line stays within it, whatever key is pressed.
pub proof fn editing_keeps_the_cursor_in_the_line(line: Line, key: KeyEvent)
    requires
        line.wf(),
    ensures
        edited(line, key) matches Some(after) ==> after.wf(),
{
}

/// Backspace undoes a typed character.
pub proof fn backspace_undoes_typing(line: Line, c: char)
    requires
        line.wf(),
    ensures
        line.typed(c).erased() == line,
{
}

/// Right undoes left, except at the start of the line, where left did not move; left undoes right,
/// except at the end.
pub proof fn cursor_moves_undo_each_other(line: Line)
    requires
        line.wf(),
    ensures
        line.cursor > 0 ==> line.left().right() == line,
        line.cursor < line.text.len() ==> line.right().left() == line,
{
}

/// Moving the cursor never changes the text.
pub proof fn moving_the_cursor_keeps_the_text(line: Line)
    ensures
        line.left().text == line.text,
        line.right().text == line.text,
        line.home().text == line.text,
        line.end().text == line.text,
{
}

// Keys in the prompt.

/// The press of a key without modifiers.
pub open spec fn plain(code: KeyCode) -> KeyEvent {
    KeyEvent {
        code,
        modifiers: KeyModifiers {
            shift: false,
            control: false,
            alt: false,
            super_key: false,
            hyper: false,
            meta: false,
        },
    }
}

/// `key` types a character.
pub open spec fn is_text_key(key: KeyEvent) -> bool {
    key.code is Char && key.modifiers.at_most_shift()
}

/// The text that a series of character keys types.
pub open spec fn typed_text(keys: Seq<KeyEvent>) -> Seq<char>
    decreases keys.len(),
{
    if keys.len() == 0 {
        Seq::empty()
    } else {
        typed_text(keys.drop_last()).push(keys.last().code->Char_0)
    }
}

/// A session after a series of keys.
pub open spec fn pressed_all(s: Session, keys: Seq<KeyEvent>) -> Session
    decreases keys.len(),
{
    if keys.len() == 0 {
        s
    } else {
        pressed(pressed_all(s, keys.drop_last()), keys.last()).0
    }
}

/// The run prompt can open: no picker or finder has the keys, herdr is there, and there is
/// somewhere to run.
pub open spec fn can_open(s: Session) -> bool {
    !(s.modal is Picker) && !(s.modal is Finder) && s.host && s.command_target() is Some
}

/// The prompt opens on an empty line at the start of the history walk, whatever was typed or run
/// before; nothing else changes.
pub proof fn the_prompt_opens_empty(s: Session)
    requires
        can_open(s),
    ensures
        opened(s).1 == redraw(),
        opened(s).0.query() == Seq::<char>::empty(),
        opened(s).0 == (Session {
            position: None,
            modal: ModalView::Prompt(
                PromptView {
                    mode: PromptMode::RunCommand,
                    line: Line::empty(),
                    saved_scroll: s.scroll,
                },
            ),
            ..s
        }),
{
}

/// Where the prompt cannot open, at most the notice changes.
pub proof fn a_refused_prompt_leaves_the_session_alone(s: Session)
    requires
        !can_open(s),
    ensures
        opened(s).0 == (Session { notice: opened(s).0.notice, ..s }),
        opened(s).1 == noop() <==> s.modal is Picker || s.modal is Finder,
        opened(s).1 == noop() ==> opened(s).0 == s,
        opened(s).1 != noop() ==> opened(s).0.notice is Some,
{
}

/// No key touches the tree cursor, the content or the host, and only one that confirms a command
/// touches the history.
pub proof fn keys_leave_the_viewer_alone(s: Session, key: KeyEvent)
    ensures
        pressed(s, key).0.selected == s.selected,
        pressed(s, key).0.scroll == s.scroll,
        pressed(s, key).0.host == s.host,
        key.code != KeyCode::Enter || trimmed(s.query()).len() == 0 ==> {
            &&& pressed(s, key).0.history == s.history
            &&& pressed(s, key).0.notice == s.notice
            &&& pressed(s, key).1 is Done
        },
        !(pressed(s, key).1 is RunInPane),
{
}

/// A well-formed session stays well-formed under every key.
pub proof fn keys_keep_the_session_well_formed(s: Session, key: KeyEvent)
    requires
        s.wf(),
    ensures
        pressed(s, key).0.wf(),
{
    the_history_stays_without_repeats(s.history, trimmed(s.query()));
}

/// Enter and escape always close the prompt.
pub proof fn confirm_and_cancel_close_the_prompt(s: Session, key: KeyEvent)
    requires
        key.code == KeyCode::Enter || key.code == KeyCode::Esc,
    ensures
        pressed(s, key).0.modal is Closed,
{
}

/// Editing does not move the walk: a key that edits the line changes nothing else.
pub proof fn editing_keeps_the_walk(s: Session, key: KeyEvent)
    requires
        edited(s.line(), key) is Some,
    ensures
        pressed(s, key).0 == s.with_line(edited(s.line(), key)->0),
        pressed(s, key).0.position == s.position,
{
}

/// A step of the walk puts the entry it leads to into the open prompt, whole and with the cursor at
/// its end, or empties the line where it leads off the newest entry.
pub proof fn the_walk_recalls_entries_whole(s: Session, back: bool)
    requires
        s.modal is Prompt,
        walked(s, back).1 == redraw(),
    ensures
        walked(s, back).0.line() == Line::holding(
            recalled(s.history, stepped(s.history.len(), s.position, back)),
        ),
        walked(s, back).0.history == s.history,
{
}

proof fn lemma_typing(s: Session, text: Seq<char>, keys: Seq<KeyEvent>)
    requires
        s.modal is Prompt,
        s.line() == Line::holding(text),
        forall|i: int| 0 <= i < keys.len() ==> is_text_key(#[trigger] keys[i]),
    ensures
        pressed_all(s, keys) == s.with_line(Line::holding(text + typed_text(keys))),
    decreases keys.len(),
{
    if keys.len() > 0 {
        lemma_typing(s, text, keys.drop_last());
    }
}

/// What is typed into a fresh prompt is the whole command: the line then holds exactly the text.
pub proof fn what_is_typed_is_the_whole_command(s: Session, keys: Seq<KeyEvent>)
    requires
        can_open(s),
        forall|i: int| 0 <= i < keys.len() ==> is_text_key(#[trigger] keys[i]),
    ensures
        pressed_all(opened(s).0, keys) == opened(s).0.with_line(Line::holding(typed_text(keys))),
        pressed_all(opened(s).0, keys).query() == typed_text(keys),
{
    lemma_typing(opened(s).0, Seq::empty(), keys);
}

/// Enter on a fresh prompt runs what was typed, trimmed, and nothing at all where only white space
/// was typed.
pub proof fn enter_runs_what_was_typed(s: Session, keys: Seq<KeyEvent>)
    requires
        can_open(s),
        forall|i: int| 0 <= i < keys.len() ==> is_text_key(#[trigger] keys[i]),
    ensures
        ({
            let command = trimmed(typed_text(keys));
            let before = Session { position: None, modal: ModalView::Closed, ..s };
            let after = pressed(pressed_all(opened(s).0, keys), plain(KeyCode::Enter));
            if command.len() > 0 {
                after == run(before, command)
            } else {
                after == (before, StepView::Done(redraw()))
            }
        }),
{
    what_is_typed_is_the_whole_command(s, keys);
}

proof fn lemma_keys_without_enter(s: Session, keys: Seq<KeyEvent>)
    requires
        forall|i: int| 0 <= i < keys.len() ==> (#[trigger] keys[i]).code != KeyCode::Enter,
    ensures
        ({
            let after = pressed_all(s, keys);
            after == Session { modal: after.modal, position: after.position, ..s }
        }),
    decreases keys.len(),
{
    if keys.len() > 0 {
        let before = keys.drop_last();
        lemma_keys_without_enter(s, before);
        keys_leave_the_viewer_alone(pressed_all(s, before), keys.last());
    }
}

/// Cancelling is free: after any keys but enter, escape closes the prompt, the host was asked for
/// nothing, and history, notice and viewer are as before. Opened again, the prompt is as it was
/// when it opened first.
pub proof fn escape_leaves_no_trace(s: Session, keys: Seq<KeyEvent>)
    requires
        can_open(s),
        forall|i: int| 0 <= i < keys.len() ==> (#[trigger] keys[i]).code != KeyCode::Enter,
    ensures
        forall|i: int|
            0 <= i < keys.len() ==> (#[trigger] pressed(
                pressed_all(opened(s).0, keys.take(i)),
                keys[i],
            )).1 is Done,
        ({
            let after = pressed(pressed_all(opened(s).0, keys), plain(KeyCode::Esc));
            &&& after.1 is Done
            &&& after.0 == Session { modal: ModalView::Closed, position: after.0.position, ..s }
            &&& opened(after.0) == opened(s)
        }),
{
    assert forall|i: int| 0 <= i < keys.len() implies (#[trigger] pressed(
        pressed_all(opened(s).0, keys.take(i)),
        keys[i],
    )).1 is Done by {
        keys_leave_the_viewer_alone(pressed_all(opened(s).0, keys.take(i)), keys[i]);
    }
    lemma_keys_without_enter(opened(s).0, keys);
}

// A whole run.

/// The argument vectors that herdr is run with when `command` is run and herdr answers `tab create`
/// with `reply`, in order.
pub open spec fn host_calls(s: Session, command: Seq<char>, reply: TabReply) -> Seq<Seq<Seq<char>>> {
    match run(s, command) {
        (after, StepView::CreateTab(request)) => match tab_answered(after, request, reply).1 {
            StepView::RunInPane(started) => seq![request.args(), started.args()],
            _ => seq![request.args()],
        },
        _ => seq![],
    }
}

/// The session when a run of `command` is over, for each answer of the host.
pub open spec fn ran(s: Session, command: Seq<char>, reply: TabReply, started: bool) -> Session {
    match run(s, command) {
        (after, StepView::CreateTab(request)) => match tab_answered(after, request, reply) {
            (after, StepView::RunInPane(request)) => pane_answered(after, request, started),
            (after, _) => after,
        },
        (after, _) => after,
    }
}

/// The directory in which a command can be run, as the text that herdr is handed.
pub open spec fn working_directory(s: Session) -> Option<Seq<char>> {
    match s.command_target() {
        Some(dir) if vstd::utf8::valid_utf8(dir) => Some(vstd::utf8::decode_utf8(dir)),
        _ => None,
    }
}

/// A run makes at most two host calls. The first creates a tab at the target directory, named after
/// the command; it is made where there is a host and a directory that is text. The second runs the
/// command in the pane that the answer names; it is made only where the answer names a usable one.
pub proof fn a_run_makes_two_host_calls(s: Session, command: Seq<char>, reply: TabReply)
    ensures
        host_calls(s, command, reply).len() == (if !s.host || working_directory(s) is None {
            0int
        } else if answered_pane(reply) is None {
            1
        } else {
            2
        }),
        host_calls(s, command, reply).len() >= 1 ==> host_calls(s, command, reply)[0] == seq![
            "tab"@,
            "create"@,
            "--cwd"@,
            working_directory(s)->0,
            "--label"@,
            label_of(command),
            "--focus"@,
        ],
        host_calls(s, command, reply).len() == 2 ==> host_calls(s, command, reply)[1] == seq![
            "pane"@,
            "run"@,
            answered_pane(reply)->0,
            guarded(command),
        ],
{
}

/// The command reaches the shell whole, as one argument; the pane it runs in is named by an
/// argument that cannot be read as an option, nor can the command itself.
pub proof fn the_command_travels_as_one_argument(s: Session, command: Seq<char>, reply: TabReply)
    requires
        host_calls(s, command, reply).len() == 2,
    ensures
        host_calls(s, command, reply)[1].len() == 4,
        host_calls(s, command, reply)[1][3] == guarded(command),
        command.len() > 0 ==> flag_safe(host_calls(s, command, reply)[1][3]),
        flag_safe(host_calls(s, command, reply)[1][2]),
{
}

/// Whatever the host answers, a run changes nothing but the history, which holds the command as its
/// newest entry, and the notice, which says how it went.
pub proof fn a_run_changes_only_history_and_notice(
    s: Session,
    command: Seq<char>,
    reply: TabReply,
    started: bool,
)
    ensures
        ran(s, command, reply, started) == (Session {
            history: remembered(s.history, command),
            notice: ran(s, command, reply, started).notice,
            ..s
        }),
        ran(s, command, reply, started).history.last() == command,
        ran(s, command, reply, started).notice is Some,
{
}

/// A run says that the command is running exactly where both host calls were made and succeeded;
/// otherwise the notice names the step that failed.
pub proof fn the_notice_tells_how_a_run_went(
    s: Session,
    command: Seq<char>,
    reply: TabReply,
    started: bool,
)
    ensures
        ran(s, command, reply, started).notice == Some(
            if s.command_target() is None {
                "Run: select a file or directory first"@
            } else if working_directory(s) is None {
                "Run: directory path is not valid UTF-8"@
            } else if !s.host {
                "Run: needs herdr to open a tab"@
            } else if reply is Failed {
                "Run: herdr could not open a tab"@
            } else if answered_pane(reply) is None {
                "Run: herdr reported no pane for the new tab"@
            } else if !started {
                "Run: herdr could not start the command"@
            } else {
                "Running `"@ + label_of(command) + "`"@
            },
        ),
{
}

/// A retry is `!`, up, enter: after a run, however it went, these three keys ask the host for the
/// same tab again, and the history stays as it is.
pub proof fn a_retry_is_three_keys(
    s: Session,
    command: Seq<char>,
    reply: TabReply,
    started: bool,
)
    requires
        can_open(s),
        is_trimmed(command),
        command.len() > 0,
    ensures
        ({
            let after = ran(s, command, reply, started);
            let recalling = pressed(opened(after).0, plain(KeyCode::Up));
            let retried = pressed(recalling.0, plain(KeyCode::Enter));
            &&& can_open(after)
            &&& recalling.0.query() == command
            &&& retried.1 == run(s, command).1
            &&& retried.0.history == after.history
        }),
{
}

} // verus!
