//! What each key does to the line in the prompt, wherever the cursor stands.

use crate::controller::runner::{pressed, StepView};
use crate::controller::{Effects, ModalView, PromptView, Session};
use crate::input::{KeyCode, KeyEvent, KeyModifiers};
use crate::laws::{is_text_key, pressed_all, typed_text};
use crate::prompt::Line;
use vstd::prelude::*;

verus! {

/// `s` with `prompt` open, holding `text` with `cursor` characters before the cursor.
pub open spec fn showing(s: Session, prompt: PromptView, text: Seq<char>, cursor: int) -> Session {
    Session {
        modal: ModalView::Prompt(
            PromptView {
                mode: prompt.mode,
                line: Line { text, cursor },
                saved_scroll: prompt.saved_scroll,
            },
        ),
        ..s
    }
}

/// `prompt` is open in `s`, with the cursor within its text.
pub open spec fn has_open(s: Session, prompt: PromptView) -> bool {
    s.modal == ModalView::Prompt(prompt) && 0 <= prompt.line.cursor <= prompt.line.text.len()
}

/// A character key types exactly when no modifier but shift is held.
pub proof fn only_shift_lets_a_character_type(modifiers: KeyModifiers)
    ensures
        modifiers.at_most_shift() <==> !modifiers.control && !modifiers.alt && !modifiers.super_key
            && !modifiers.hyper && !modifiers.meta,
{
}

/// A character key puts its character between what stands before and what stands behind the cursor,
/// and the cursor behind it, so that the next character follows. Nothing else changes.
pub proof fn a_character_goes_in_at_the_cursor(
    s: Session,
    prompt: PromptView,
    key: KeyEvent,
    c: char,
)
    requires
        has_open(s, prompt),
        key.code == KeyCode::Char(c),
        !key.modifiers.control && !key.modifiers.alt && !key.modifiers.super_key
            && !key.modifiers.hyper && !key.modifiers.meta,
    ensures
        pressed(s, key).0 == showing(
            s,
            prompt,
            prompt.line.text.take(prompt.line.cursor) + seq![c] + prompt.line.text.skip(
                prompt.line.cursor,
            ),
            prompt.line.cursor + 1,
        ),
        pressed(s, key).1 == StepView::Done(Effects { redraw: true }),
{
    let line = prompt.line;
    assert(line.text.insert(line.cursor, c) =~= line.text.take(line.cursor) + seq![c]
        + line.text.skip(line.cursor));
}

/// A text typed at any place in the line goes in there as one stretch, with the cursor behind it.
pub proof fn a_text_goes_in_at_the_cursor_as_one_stretch(
    s: Session,
    prompt: PromptView,
    keys: Seq<KeyEvent>,
)
    requires
        has_open(s, prompt),
        forall|i: int| 0 <= i < keys.len() ==> is_text_key(#[trigger] keys[i]),
    ensures
        pressed_all(s, keys) == showing(
            s,
            prompt,
            prompt.line.text.take(prompt.line.cursor) + typed_text(keys) + prompt.line.text.skip(
                prompt.line.cursor,
            ),
            prompt.line.cursor + keys.len(),
        ),
        typed_text(keys).len() == keys.len(),
        forall|i: int|
            0 <= i < keys.len() ==> keys[i].code == KeyCode::Char(#[trigger] typed_text(keys)[i]),
    decreases keys.len(),
{
    let text = prompt.line.text;
    let cursor = prompt.line.cursor;
    if keys.len() == 0 {
        assert(text.take(cursor) + typed_text(keys) + text.skip(cursor) =~= text);
    } else {
        let before = keys.drop_last();
        let key = keys.last();
        assert(key == keys[keys.len() - 1]);
        a_text_goes_in_at_the_cursor_as_one_stretch(s, prompt, before);
        let middle = pressed_all(s, before);
        let middle_prompt = middle.modal->Prompt_0;
        a_character_goes_in_at_the_cursor(middle, middle_prompt, key, key.code->Char_0);
        let line = middle_prompt.line;
        assert(line.text.take(line.cursor) + seq![key.code->Char_0] + line.text.skip(line.cursor)
            =~= text.take(cursor) + typed_text(keys) + text.skip(cursor));
        assert forall|i: int| 0 <= i < keys.len() implies keys[i].code == KeyCode::Char(
            #[trigger] typed_text(keys)[i],
        ) by {
            if i < before.len() {
                assert(typed_text(keys)[i] == typed_text(before)[i]);
                assert(keys[i] == before[i]);
            }
        }
    }
}

/// Backspace takes out the one character before the cursor and nothing else; at the start of the
/// line there is none.
pub proof fn backspace_takes_out_the_character_before_the_cursor(
    s: Session,
    prompt: PromptView,
    key: KeyEvent,
)
    requires
        has_open(s, prompt),
        key.code == KeyCode::Backspace,
    ensures
        prompt.line.cursor > 0 ==> pressed(s, key).0 == showing(
            s,
            prompt,
            prompt.line.text.take(prompt.line.cursor - 1) + prompt.line.text.skip(
                prompt.line.cursor,
            ),
            prompt.line.cursor - 1,
        ),
        prompt.line.cursor == 0 ==> pressed(s, key).0 == s,
        pressed(s, key).1 == StepView::Done(Effects { redraw: true }),
{
    let line = prompt.line;
    if line.cursor > 0 {
        assert(line.text.remove(line.cursor - 1) =~= line.text.take(line.cursor - 1)
            + line.text.skip(line.cursor));
    }
}

/// Left and right move the cursor by one character, and stop at the ends; home and end move it
/// there. The text stays.
pub proof fn cursor_keys_move_the_cursor(s: Session, prompt: PromptView, key: KeyEvent)
    requires
        has_open(s, prompt),
    ensures
        key.code == KeyCode::Left ==> pressed(s, key).0 == showing(
            s,
            prompt,
            prompt.line.text,
            if prompt.line.cursor > 0 {
                prompt.line.cursor - 1
            } else {
                0
            },
        ),
        key.code == KeyCode::Right ==> pressed(s, key).0 == showing(
            s,
            prompt,
            prompt.line.text,
            if prompt.line.cursor < prompt.line.text.len() {
                prompt.line.cursor + 1
            } else {
                prompt.line.text.len() as int
            },
        ),
        key.code == KeyCode::Home ==> pressed(s, key).0 == showing(s, prompt, prompt.line.text, 0),
        key.code == KeyCode::End ==> pressed(s, key).0 == showing(
            s,
            prompt,
            prompt.line.text,
            prompt.line.text.len() as int,
        ),
        key.code == KeyCode::Left || key.code == KeyCode::Right || key.code == KeyCode::Home
            || key.code == KeyCode::End ==> pressed(s, key).1 == StepView::Done(
            Effects { redraw: true },
        ),
{
}

/// Escape closes whatever is open and does nothing else.
pub proof fn escape_only_closes(s: Session, key: KeyEvent)
    requires
        key.code == KeyCode::Esc,
    ensures
        pressed(s, key).0 == (Session { modal: ModalView::Closed, ..s }),
        pressed(s, key).1 == StepView::Done(Effects { redraw: true }),
{
}

/// A character key with another modifier than shift, and any key that the prompt does not know, do
/// nothing.
pub proof fn other_keys_do_nothing(s: Session, key: KeyEvent)
    requires
        key.code == KeyCode::Other || key.code is Char && (key.modifiers.control
            || key.modifiers.alt || key.modifiers.super_key || key.modifiers.hyper
            || key.modifiers.meta),
    ensures
        pressed(s, key).0 == s,
        pressed(s, key).1 == StepView::Done(Effects { redraw: false }),
{
}

/// Without an open prompt there is no line to edit: every key but enter, escape, up and down leaves
/// the session as it is, and enter and escape only close. A key that the prompt knows still has the
/// screen drawn again.
pub proof fn without_a_prompt_there_is_nothing_to_edit(s: Session, key: KeyEvent)
    requires
        !(s.modal is Prompt),
        key.code != KeyCode::Up && key.code != KeyCode::Down,
    ensures
        key.code != KeyCode::Enter && key.code != KeyCode::Esc ==> pressed(s, key).0 == s,
        key.code == KeyCode::Enter || key.code == KeyCode::Esc ==> pressed(s, key).0 == (Session {
            modal: ModalView::Closed,
            ..s
        }),
        pressed(s, key).1 == StepView::Done(
            Effects {
                redraw: key.code != KeyCode::Other && !(key.code is Char && (key.modifiers.control
                    || key.modifiers.alt || key.modifiers.super_key || key.modifiers.hyper
                    || key.modifiers.meta)),
            },
        ),
{
}

/// Whatever stands before and behind the cursor: a character typed and deleted again leaves the
/// session as it was.
pub proof fn the_backspace_key_undoes_a_character_key(
    s: Session,
    prompt: PromptView,
    typing: KeyEvent,
    deleting: KeyEvent,
)
    requires
        has_open(s, prompt),
        is_text_key(typing),
        deleting.code == KeyCode::Backspace,
    ensures
        pressed(pressed(s, typing).0, deleting).0 == s,
{
    let text = prompt.line.text;
    let cursor = prompt.line.cursor;
    let typed = pressed(s, typing).0;
    a_character_goes_in_at_the_cursor(s, prompt, typing, typing.code->Char_0);
    backspace_takes_out_the_character_before_the_cursor(typed, typed.modal->Prompt_0, deleting);
    let line = typed.modal->Prompt_0.line;
    assert(line.text.take(cursor) + line.text.skip(cursor + 1) =~= text);
}

/// The editor itself, apart from any key: a line holds its text with the cursor at the end, typing
/// and deleting work at the cursor, and the cursor moves within the text.
pub proof fn the_editor_works_at_the_cursor(line: Line, text: Seq<char>, c: char)
    requires
        0 <= line.cursor <= line.text.len(),
    ensures
        Line::holding(text) == (Line { text, cursor: text.len() as int }),
        Line::empty() == (Line { text: Seq::empty(), cursor: 0 }),
        line.typed(c).text == line.text.take(line.cursor) + seq![c] + line.text.skip(line.cursor),
        line.typed(c).cursor == line.cursor + 1,
        line.cursor > 0 ==> line.erased().text == line.text.take(line.cursor - 1) + line.text.skip(
            line.cursor,
        ) && line.erased().cursor == line.cursor - 1,
        line.cursor == 0 ==> line.erased() == line,
        line.left().cursor == (if line.cursor == 0 {
            0
        } else {
            line.cursor - 1
        }),
        line.right().cursor == (if line.cursor == line.text.len() {
            line.cursor
        } else {
            line.cursor + 1
        }),
        line.home().cursor == 0,
        line.end().cursor == line.text.len(),
        line.left().text == line.text && line.right().text == line.text && line.home().text
            == line.text && line.end().text == line.text,
{
    assert(line.text.insert(line.cursor, c) =~= line.text.take(line.cursor) + seq![c]
        + line.text.skip(line.cursor));
    if line.cursor > 0 {
        assert(line.text.remove(line.cursor - 1) =~= line.text.take(line.cursor - 1)
            + line.text.skip(line.cursor));
    }
}

} // verus!
