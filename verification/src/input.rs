//! The keys that the games react to, as plain values.

use vstd::prelude::*;

verus! {

/// A key press, stripped of everything but what the games look at.
#[derive(Clone, Copy, PartialEq, Eq, Structural, Debug)]
pub enum Key {
    Char(char),
    Up,
    Down,
    Left,
    Right,
    Enter,
    Esc,
    Backspace,
    Tab,
    BackTab,
    /// Any key that nothing reacts to.
    Other,
}

/// The modifier keys that were held down with a key.
#[derive(Clone, Copy, PartialEq, Eq, Structural, Debug)]
pub struct Modifiers {
    pub control: bool,
    pub shift: bool,
    /// Whether any other modifier was held down.
    pub other: bool,
}

impl Modifiers {
    /// Whether no modifier was held down.
    pub open spec fn spec_is_empty(&self) -> bool {
        !self.control && !self.shift && !self.other
    }

    /// Whether no modifier was held down.
    #[verifier::when_used_as_spec(spec_is_empty)]
    pub fn is_empty(&self) -> (r: bool)
        ensures
            r == self.spec_is_empty(),
    {
        !self.control && !self.shift && !self.other
    }

    /// No modifier.
    pub fn none() -> (r: Modifiers)
        ensures
            r == (Modifiers { control: false, shift: false, other: false }),
    {
        Modifiers { control: false, shift: false, other: false }
    }
}

impl Key {
    /// Whether this is the key of the letter `lower`, in either case.
    pub open spec fn spec_is_letter(&self, lower: char, upper: char) -> bool {
        *self == Key::Char(lower) || *self == Key::Char(upper)
    }

    /// Whether this is the key of the letter `lower`, in either case.
    #[verifier::when_used_as_spec(spec_is_letter)]
    pub fn is_letter(&self, lower: char, upper: char) -> (r: bool)
        ensures
            r == self.spec_is_letter(lower, upper),
    {
        match self {
            Key::Char(c) => *c == lower || *c == upper,
            _ => false,
        }
    }

    /// The digit that this key stands for, if it is a digit key.
    pub open spec fn spec_digit(&self) -> Option<usize> {
        match *self {
            Key::Char(c) => if '0' <= c && c <= '9' {
                Some((c as u32 - '0' as u32) as usize)
            } else {
                None
            },
            _ => None,
        }
    }

    /// The digit that this key stands for, if it is a digit key.
    #[verifier::when_used_as_spec(spec_digit)]
    pub fn digit(&self) -> (r: Option<usize>)
        ensures
            r == self.spec_digit(),
            r is Some ==> r->0 < 10,
    {
        match self {
            Key::Char(c) => if '0' <= *c && *c <= '9' {
                Some((*c as u32 - '0' as u32) as usize)
            } else {
                None
            },
            _ => None,
        }
    }
}

} // verus!
