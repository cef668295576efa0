//! Keys that are pressed.

use vstd::prelude::*;

verus! {

/// A key.
#[derive(Clone, Copy, Debug, PartialEq, Eq, Structural)]
pub enum KeyCode {
    Character(char),
    Enter,
    Escape,
    Up,
    Down,
    Left,
    Right,
    Tab,
    Backspace,
    /// Any other key.
    Other,
}

/// A key that was pressed, with the modifiers that were held.
#[derive(Clone, Copy, Debug, PartialEq, Eq, Structural)]
pub struct Key {
    pub code: KeyCode,
    pub shift: bool,
    pub control: bool,
    /// A modifier besides these two.
    pub other: bool,
}

impl Key {
    /// No modifier but shift was held: a character is then typed as it is.
    pub open spec fn typed(self) -> bool {
        !self.control && !self.other
    }

    /// Whether no modifier but shift was held.
    pub fn is_typed(&self) -> (is_typed: bool)
        ensures
            is_typed == self.typed(),
    {
        !self.control && !self.other
    }
}

/// A character is typed where neither control nor another modifier is held; shift does not matter.
pub proof fn shift_does_not_keep_from_typing(key: Key, typed: bool)
    requires
        call_ensures(Key::is_typed, (&key,), typed),
    ensures
        typed <==> !key.control && !key.other,
{
}

} // verus!
