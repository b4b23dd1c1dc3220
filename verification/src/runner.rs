//! The pure half of the run-a-command gesture: the target directory, the two herdr argument
//! vectors, the tab's label, the command history, and the pane named in herdr's reply.
//!
//! This is the one place where a string that the user typed reaches a shell, and how it is carried
//! is deliberate:
//!
//! * The command is one element of the argument vector, never split. herdr types it into the tab's
//!   shell, so pipes, `&&`, quoting and globbing are the user's own shell's.
//! * A command that starts with `-` would be taken by herdr's own command line as an option, and
//!   herdr forwards a `--` separator into the shell. So one leading space is put before it, which
//!   every shell ignores. See [`shell_arg`].
//! * The pane id that herdr reports is checked before it enters an argument vector. See
//!   [`parse_root_pane_id`].

use crate::launch::is_flag_safe;
use crate::tree::NodeKind;
use std::path::{Path, PathBuf};
use vstd::prelude::*;

verus! {

/// How many characters a tab label may have before it is ellipsized: long enough for the commands
/// people run, short enough that herdr's tab strip stays readable.
pub const LABEL_MAX: usize = 24;

/// How many commands the session remembers: a bound against growth, not a working limit.
pub const HISTORY_MAX: usize = 50;

/// herdr's reply to `tab create`, trimmed to what is read of it.
#[derive(Debug)]
pub struct TabCreated {
    pub result: TabCreatedResult,
}

/// The `result` member of herdr's reply.
#[derive(Debug)]
pub struct TabCreatedResult {
    pub root_pane: Option<RootPane>,
}

/// The new tab's root pane, as herdr describes it.
#[derive(Debug)]
pub struct RootPane {
    pub pane_id: Option<String>,
}

impl TabCreated {
    /// The pane id that the reply carries, if it carries one.
    pub open spec fn pane_id(self) -> Option<Seq<char>> {
        match self.result.root_pane {
            Some(RootPane { pane_id: Some(id) }) => Some(id@),
            _ => None,
        }
    }
}

/// The directory a command launched from a node runs in: a directory itself, a file's parent.
pub open spec fn run_directory(path: Seq<u8>, kind: NodeKind) -> Option<Seq<u8>> {
    match kind {
        NodeKind::Dir => Some(path),
        NodeKind::File => crate::paths::parent_of(path),
    }
}

/// A tab's label: the trimmed command, cut to [`LABEL_MAX`] characters of which the last is then an
/// ellipsis.
pub open spec fn label_of(command: Seq<char>) -> Seq<char> {
    let command = crate::text::trimmed(command);
    if command.len() <= LABEL_MAX {
        command
    } else {
        command.take(LABEL_MAX - 1).push('…')
    }
}

/// A command as herdr's command line takes it: behind a space if it starts with a dash.
pub open spec fn guarded(command: Seq<char>) -> Seq<char> {
    if command.len() > 0 && command[0] == '-' {
        seq![' '] + command
    } else {
        command
    }
}

/// A history after `command` was run: a repeat of the newest entry adds nothing, any other command
/// becomes the newest entry, and past [`HISTORY_MAX`] entries the oldest falls off.
pub open spec fn remembered(history: Seq<Seq<char>>, command: Seq<char>) -> Seq<Seq<char>> {
    if history.len() > 0 && history.last() == command {
        history
    } else if history.len() < HISTORY_MAX {
        history.push(command)
    } else {
        history.push(command).drop_first()
    }
}

/// No entry equals the one before it.
pub open spec fn no_repeats(history: Seq<Seq<char>>) -> bool {
    forall|i: int| 0 < i < history.len() ==> #[trigger] history[i] != history[i - 1]
}

/// Where a step through a history of `len` entries leads from `pos`; `None` is the empty line,
/// newer than every entry.
pub open spec fn stepped(len: nat, pos: Option<nat>, back: bool) -> Option<nat> {
    if len == 0 {
        None
    } else if back {
        match pos {
            None => Some((len - 1) as nat),
            Some(i) => Some(if i > 0 { (i - 1) as nat } else { 0 }),
        }
    } else {
        match pos {
            Some(i) if i + 1 < len => Some(i + 1),
            _ => None,
        }
    }
}

/// The pane id that a reply gives for the next argument vector: one it carries that is safe there.
pub open spec fn usable_pane(reply: Option<TabCreated>) -> Option<Seq<char>> {
    match reply {
        Some(reply) => match reply.pane_id() {
            Some(id) if crate::launch::flag_safe(id) => Some(id),
            _ => None,
        },
        None => None,
    }
}

/// A history position as a natural number.
pub open spec fn position(pos: Option<usize>) -> Option<nat> {
    match pos {
        Some(i) => Some(i as nat),
        None => None,
    }
}

/// The directory a command launched from a node should run in: the directory itself, or a file's
/// parent. `None` when a file has no parent (a filesystem root), which is the one case with
/// nowhere sensible to run.
pub fn target_dir(path: &Path, kind: NodeKind) -> (dir: Option<PathBuf>)
    ensures
        match dir {
            Some(dir) => run_directory(crate::paths::path_bytes(path), kind) == Some(
                crate::paths::path_buf_bytes(&dir),
            ),
            None => run_directory(crate::paths::path_bytes(path), kind) is None,
        },
        kind == NodeKind::File ==> (dir matches Some(dir) ==> {
            &&& crate::paths::path_buf_bytes(&dir).len() < crate::paths::path_bytes(path).len()
            &&& crate::paths::path_buf_bytes(&dir).is_prefix_of(crate::paths::path_bytes(path))
        }),
{
    match kind {
        NodeKind::Dir => Some(path.to_path_buf()),
        NodeKind::File => match path.parent() {
            Some(parent) => Some(parent.to_path_buf()),
            None => None,
        },
    }
}

/// The label for the created tab: the command itself, trimmed and ellipsized to [`LABEL_MAX`]
/// characters (not bytes: a multibyte command is never cut inside a character). Naming the tab
/// after the command is what makes it findable in herdr's tab strip.
pub fn tab_label(command: &str) -> (label: String)
    ensures
        label@ == label_of(command@),
        label@.len() <= LABEL_MAX,
{
    let command = command.trim();
    if command.unicode_len() <= LABEL_MAX {
        return command.to_string();
    }
    let mut label = command.substring_char(0, LABEL_MAX - 1).to_string();
    label.push('…');
    label
}

/// The argument vector of the first host call: create a focused tab rooted at `cwd`, labelled
/// `label`. herdr answers it with the JSON that names the new tab's root pane.
pub fn tab_create_args<'a>(cwd: &'a str, label: &'a str) -> (args: Vec<&'a str>)
    ensures
        args.deep_view() == seq![
            "tab"@,
            "create"@,
            "--cwd"@,
            cwd@,
            "--label"@,
            label@,
            "--focus"@,
        ],
{
    vec!["tab", "create", "--cwd", cwd, "--label", label, "--focus"]
}

/// The argument vector of the second host call: type `command` into the new tab's shell and run
/// it. The command is a single element on purpose.
pub fn pane_run_args<'a>(pane_id: &'a str, command: &'a str) -> (args: Vec<&'a str>)
    ensures
        args.deep_view() == seq!["pane"@, "run"@, pane_id@, command@],
{
    vec!["pane", "run", pane_id, command]
}

/// The command as it must be handed to herdr's command line: unchanged, unless it starts with `-`,
/// in which case one leading space is prepended so that herdr cannot mistake it for an option of
/// its own. A leading space is inert in every shell.
pub fn shell_arg(command: &str) -> (arg: String)
    ensures
        arg@ == guarded(command@),
{
    if !command.is_empty() && command.get_char(0) == '-' {
        let mut arg = String::new();
        arg.push(' ');
        arg.append(command);
        arg
    } else {
        command.to_string()
    }
}

/// Record `command` as the most recent entry of the session's history.
///
/// Consecutive duplicates are collapsed: running the same thing in three directories in a row
/// leaves one entry to walk back through. The oldest entry falls off at [`HISTORY_MAX`].
pub fn push_history(history: &mut Vec<String>, command: &str)
    ensures
        final(history).deep_view() == remembered(old(history).deep_view(), command@),
{
    let entry = command.to_string();
    if history.len() > 0 && history[history.len() - 1] == entry {
        return;
    }
    history.push(entry);
    if history.len() > HISTORY_MAX {
        let _oldest = history.remove(0);
    }
}

/// Where a step through a history of `len` entries leads from position `pos`, shell-style.
///
/// `None` is the empty line the prompt opened on, newer than every entry. A step `back` walks from
/// there to the newest entry and on toward the oldest, stopping at it; a step forward walks toward
/// the newest and then off the end, returning to the empty line.
pub fn history_step(len: usize, pos: Option<usize>, back: bool) -> (next: Option<usize>)
    requires
        len > 0 && !back ==> pos != Some(usize::MAX),
    ensures
        position(next) == stepped(len as nat, position(pos), back),
{
    if len == 0 {
        return None;
    }
    match (back, pos) {
        (true, None) => Some(len - 1),
        (true, Some(i)) => Some(i.saturating_sub(1)),
        (false, None) => None,
        (false, Some(i)) => if i + 1 < len {
            Some(i + 1)
        } else {
            None
        },
    }
}

/// The new tab's root pane id, read from herdr's `tab create` reply, or `None` when the reply could
/// not be read (`reply` is `None`), carries no pane, or names one that is not safe to place in an
/// argument vector. A host reply is still untrusted input, and this id goes straight into the next
/// call.
pub fn parse_root_pane_id(reply: Option<TabCreated>) -> (pane: Option<String>)
    ensures
        pane.deep_view() == usable_pane(reply),
{
    let id = reply?.result.root_pane?.pane_id?;
    if is_flag_safe(id.as_str()) {
        Some(id)
    } else {
        None
    }
}

} // verus!
