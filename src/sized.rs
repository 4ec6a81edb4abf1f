//! An operand value: nothing, a byte or a word.
use vstd::prelude::*;

verus! {

#[derive(Clone, Copy, PartialEq, Eq, Structural)]
pub enum Sized {
    Zero,
    Byte(u8),
    Word(u16),
}

impl Sized {
    /// How many bytes the value occupies.
    pub open spec fn width(self) -> nat {
        match self {
            Sized::Zero => 0,
            Sized::Byte(_) => 1,
            Sized::Word(_) => 2,
        }
    }

    /// The byte held, for a byte value.
    pub open spec fn byte_value(self) -> u8 {
        match self {
            Sized::Byte(v) => v,
            _ => 0,
        }
    }

    /// The word held, for a word value.
    pub open spec fn word_value(self) -> u16 {
        match self {
            Sized::Word(v) => v,
            _ => 0,
        }
    }

    pub fn number_of_bytes(&self) -> (r: u16)
        ensures
            r == self.width(),
    {
        match self {
            Sized::Zero => 0,
            Sized::Byte(_) => 1,
            Sized::Word(_) => 2,
        }
    }

    pub fn is_value_zero(&self) -> (r: bool)
        requires
            *self != Sized::Zero,
        ensures
            r == (self.width() == 1 && self.byte_value() == 0 || self.width() == 2
                && self.word_value() == 0),
    {
        match self {
            Sized::Byte(value) => *value == 0,
            Sized::Word(value) => *value == 0,
            Sized::Zero => false,
        }
    }

    /// Whether the value, read as the result of an increment, carried out of bit 3
    /// (bit 11 for a word): its low 4 bits (low 12 bits for a word) rolled over to zero.
    pub fn check_value_for_half_carry(&self) -> (r: bool)
        requires
            *self != Sized::Zero,
        ensures
            r == (self.width() == 1 && self.byte_value() % 16 == 0 || self.width() == 2
                && self.word_value() % 0x1000 == 0),
    {
        match self {
            Sized::Byte(value) => *value % 16 == 0,
            Sized::Word(value) => *value % 0x1000 == 0,
            Sized::Zero => false,
        }
    }

    pub fn as_byte(&self) -> (r: u8)
        requires
            self.width() == 1,
        ensures
            r == self.byte_value(),
    {
        match self {
            Sized::Byte(v) => *v,
            _ => 0,
        }
    }

    pub fn as_word(&self) -> (r: u16)
        requires
            self.width() == 2,
        ensures
            r == self.word_value(),
    {
        match self {
            Sized::Word(v) => *v,
            _ => 0,
        }
    }
}

} // verus!
