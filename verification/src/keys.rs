use vstd::prelude::*;

verus! {

/// The keys without a character that the console reacts to; `Other`
/// stands for every other one.
#[derive(Clone, Copy, PartialEq, Eq, Structural, Debug)]
pub enum KeyCode {
    F1,
    F2,
    F3,
    F4,
    F5,
    F6,
    ArrowLeft,
    ArrowRight,
    ArrowUp,
    ArrowDown,
    Backspace,
    Delete,
    Other,
}

/// A key press: a key without a character, or a character.
#[derive(Clone, Copy, PartialEq, Eq, Structural, Debug)]
pub enum DecodedKey {
    RawKey(KeyCode),
    Unicode(char),
}

} // verus!
