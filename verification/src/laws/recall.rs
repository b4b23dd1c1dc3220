//! What the session remembers, and what the arrows bring back of it.

use crate::controller::runner::{opened, pressed, walked, StepView};
use crate::controller::{Effects, ModalView, PromptMode, PromptView, Session};
use crate::input::{KeyCode, KeyEvent};
use crate::laws::editing::showing;
use crate::laws::pressed_all;
use crate::runner::{position, remembered, stepped, HISTORY_MAX};
use vstd::prelude::*;

verus! {

/// A history remembers fifty commands.
pub proof fn a_history_holds_fifty_commands()
    ensures
        HISTORY_MAX == 50,
{
}

/// Of any history: running its newest command again leaves it as it is; any other command is added
/// behind all entries, which keep their order; and only a history of fifty entries or more loses one
/// for it, the oldest.
pub proof fn a_command_is_added_behind_all_others(history: Seq<Seq<char>>, command: Seq<char>)
    ensures
        history.len() > 0 && history[history.len() - 1] == command ==> remembered(history, command)
            == history,
        !(history.len() > 0 && history[history.len() - 1] == command) && history.len() < 50
            ==> remembered(history, command) == history + seq![command],
        !(history.len() > 0 && history[history.len() - 1] == command) && history.len() >= 50
            ==> remembered(history, command) == history.skip(1) + seq![command],
{
    if history.len() < 50 {
        assert(history.push(command) =~= history + seq![command]);
    } else {
        assert(history.push(command).drop_first() =~= history.skip(1) + seq![command]);
    }
}

/// A step back leads one entry toward the oldest and stays there; a step forward leads one entry
/// toward the newest, and from there, or from outside the history, to the empty line.
pub proof fn a_step_leads_to_the_neighbour(len: nat, pos: Option<nat>)
    ensures
        stepped(0, pos, true) is None && stepped(0, pos, false) is None,
        len > 0 && pos is None ==> stepped(len, pos, true) == Some((len - 1) as nat),
        len > 0 && pos is None ==> stepped(len, pos, false) is None,
        len > 0 && pos == Some(0nat) ==> stepped(len, pos, true) == Some(0nat),
        forall|i: nat|
            len > 0 && pos == Some(i) && i > 0 ==> #[trigger] stepped(len, Some(i), true) == Some(
                (i - 1) as nat,
            ),
        forall|i: nat|
            pos == Some(i) && i + 1 < len ==> #[trigger] stepped(len, Some(i), false) == Some(
                i + 1,
            ),
        forall|i: nat|
            pos == Some(i) && i + 1 >= len ==> #[trigger] stepped(len, Some(i), false) is None,
{
}

/// A position is read as the number it is.
pub proof fn a_position_is_its_index(pos: Option<usize>)
    ensures
        pos is None <==> position(pos) is None,
        forall|i: usize| pos == Some(i) ==> #[trigger] position(Some(i)) == Some(i as nat),
{
}

/// The session at history entry `i`, with that entry in the prompt, the cursor at its end.
pub open spec fn at_entry(s: Session, prompt: PromptView, i: int) -> Session {
    Session {
        position: Some(i as nat),
        ..showing(s, prompt, s.history[i], s.history[i].len() as int)
    }
}

/// The session at the empty line, with nothing in the prompt.
pub open spec fn at_empty_line(s: Session, prompt: PromptView) -> Session {
    Session { position: None, ..showing(s, prompt, Seq::empty(), 0) }
}

/// Up brings the next older command into the prompt, whole and with the cursor at its end, whichever
/// entry it is; at the oldest, or without a history, it does nothing.
pub proof fn up_recalls_the_next_older_command(s: Session, prompt: PromptView, key: KeyEvent)
    requires
        s.modal == ModalView::Prompt(prompt),
        s.position matches Some(i) ==> i < s.history.len(),
        key.code == KeyCode::Up,
    ensures
        s.position is None && s.history.len() > 0 ==> pressed(s, key) == (
            at_entry(s, prompt, s.history.len() - 1),
            StepView::Done(Effects { redraw: true }),
        ),
        s.position matches Some(i) ==> i > 0 ==> pressed(s, key) == (
            at_entry(s, prompt, i - 1),
            StepView::Done(Effects { redraw: true }),
        ),
        s.history.len() == 0 || s.position == Some(0nat) ==> pressed(s, key) == (
            s,
            StepView::Done(Effects { redraw: false }),
        ),
{
}

/// Down brings the next newer command into the prompt, whole and with the cursor at its end, and
/// behind the newest the empty line; on the empty line it does nothing.
pub proof fn down_recalls_the_next_newer_command(s: Session, prompt: PromptView, key: KeyEvent)
    requires
        s.modal == ModalView::Prompt(prompt),
        s.position matches Some(i) ==> i < s.history.len(),
        key.code == KeyCode::Down,
    ensures
        s.position matches Some(i) ==> i + 1 < s.history.len() ==> pressed(s, key) == (
            at_entry(s, prompt, (i + 1) as int),
            StepView::Done(Effects { redraw: true }),
        ),
        s.position matches Some(i) ==> i + 1 == s.history.len() ==> pressed(s, key) == (
            at_empty_line(s, prompt),
            StepView::Done(Effects { redraw: true }),
        ),
        s.position is None ==> pressed(s, key) == (s, StepView::Done(Effects { redraw: false })),
{
}

/// A step of the walk that moves leaves the session at the entry that the step leads to, with that
/// very entry in the prompt, or at the empty line.
pub proof fn a_step_shows_the_entry_it_leads_to(s: Session, prompt: PromptView, back: bool)
    requires
        s.modal == ModalView::Prompt(prompt),
        s.position matches Some(i) ==> i < s.history.len(),
        stepped(s.history.len(), s.position, back) != s.position,
    ensures
        walked(s, back).0.position == stepped(s.history.len(), s.position, back),
        stepped(s.history.len(), s.position, back) matches Some(i) ==> i < s.history.len()
            && walked(s, back).0 == at_entry(s, prompt, i as int),
        stepped(s.history.len(), s.position, back) is None ==> walked(s, back).0 == at_empty_line(
            s,
            prompt,
        ),
        walked(s, back).1 == (Effects { redraw: true }),
{
}

/// Up and down are the two steps of the walk, whatever is open.
pub proof fn the_arrows_are_the_steps_of_the_walk(s: Session, key: KeyEvent)
    requires
        key.code == KeyCode::Up || key.code == KeyCode::Down,
    ensures
        pressed(s, key).0 == walked(s, key.code == KeyCode::Up).0,
        pressed(s, key).1 == StepView::Done(walked(s, key.code == KeyCode::Up).1),
{
}

/// Without an open prompt a step moves the walk and nothing else.
pub proof fn a_step_without_a_prompt_only_moves_the_walk(s: Session, back: bool)
    requires
        !(s.modal is Prompt),
    ensures
        walked(s, back).0 == (Session {
            position: stepped(s.history.len(), s.position, back),
            ..s
        }),
        walked(s, back).1.redraw <==> stepped(s.history.len(), s.position, back) != s.position,
{
}

/// In a prompt just opened, up pressed any number of times brings back that many commands ago, and
/// at most the oldest one; the commands themselves stay as they are.
pub proof fn the_nth_up_recalls_the_nth_newest_command(
    s: Session,
    keys: Seq<KeyEvent>,
)
    requires
        !(s.modal is Picker) && !(s.modal is Finder) && s.host && s.command_target() is Some,
        keys.len() > 0,
        s.history.len() > 0,
        forall|i: int| 0 <= i < keys.len() ==> (#[trigger] keys[i]).code == KeyCode::Up,
    ensures
        pressed_all(opened(s).0, keys) == at_entry(
            s,
            PromptView {
                mode: PromptMode::RunCommand,
                line: opened(s).0.line(),
                saved_scroll: s.scroll,
            },
            if keys.len() <= s.history.len() {
                s.history.len() - keys.len()
            } else {
                0
            },
        ),
    decreases keys.len(),
{
    let before = keys.drop_last();
    assert(keys.last() == keys[keys.len() - 1]);
    if before.len() == 0 {
        assert(pressed_all(opened(s).0, before) == opened(s).0);
        up_recalls_the_next_older_command(
            opened(s).0,
            opened(s).0.modal->Prompt_0,
            keys.last(),
        );
    } else {
        the_nth_up_recalls_the_nth_newest_command(s, before);
        let middle = pressed_all(opened(s).0, before);
        up_recalls_the_next_older_command(middle, middle.modal->Prompt_0, keys.last());
    }
}

} // verus!
