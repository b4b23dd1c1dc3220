//! Keys: what the gesture reads of a key press, and the key that starts it.

use vstd::prelude::*;

verus! {

/// Which key was pressed. The keys that the run prompt does not answer are all [`KeyCode::Other`].
#[derive(Clone, Copy, Debug, PartialEq, Eq, Structural)]
pub enum KeyCode {
    Char(char),
    Backspace,
    Left,
    Right,
    Up,
    Down,
    Home,
    End,
    Enter,
    Esc,
    Other,
}

/// The modifier keys that were held down with a key.
#[derive(Clone, Copy, Debug, PartialEq, Eq, Structural)]
pub struct KeyModifiers {
    pub shift: bool,
    pub control: bool,
    pub alt: bool,
    pub super_key: bool,
    pub hyper: bool,
    pub meta: bool,
}

/// A key press.
#[derive(Clone, Copy, Debug, PartialEq, Eq, Structural)]
pub struct KeyEvent {
    pub code: KeyCode,
    pub modifiers: KeyModifiers,
}

impl KeyModifiers {
    /// No modifier but shift is held.
    pub open spec fn at_most_shift(self) -> bool {
        !self.control && !self.alt && !self.super_key && !self.hyper && !self.meta
    }

    /// No modifier at all.
    pub fn none() -> (modifiers: KeyModifiers)
        ensures
            modifiers.at_most_shift(),
            !modifiers.shift,
    {
        KeyModifiers {
            shift: false,
            control: false,
            alt: false,
            super_key: false,
            hyper: false,
            meta: false,
        }
    }

    /// Whether no modifier but shift is held: then a character key types its character.
    pub fn types_text(&self) -> (text: bool)
        ensures
            text == self.at_most_shift(),
    {
        !self.control && !self.alt && !self.super_key && !self.hyper && !self.meta
    }
}

/// What a key asks for while no prompt is open.
#[derive(Clone, Copy, Debug, PartialEq, Eq, Structural)]
pub enum Intent {
    RunCommand,
}

/// `!` is the key that asks for the run prompt; the gesture binds no other.
pub fn map_key(key: KeyEvent) -> (intent: Option<Intent>)
    ensures
        intent == (if key.code == KeyCode::Char('!') && key.modifiers.at_most_shift() {
            Some(Intent::RunCommand)
        } else {
            None
        }),
{
    match key.code {
        KeyCode::Char(c) => if c == '!' && key.modifiers.types_text() {
            Some(Intent::RunCommand)
        } else {
            None
        },
        _ => None,
    }
}

} // verus!
