//! The tagged value type transferred to and from the process image, and the
//! bit-position type for bit-level transfers.

use vstd::prelude::*;

verus! {

/// A value that can be written to or read from the process image. The
/// variant carries the exact width of the transfer.
#[derive(Debug, PartialEq, Eq, Structural, Hash, Clone, Copy)]
pub enum Value {
    Bit(bool),
    Byte(u8),
    Word(u16),
    DWord(u32),
}

impl Value {
    /// The number of bits this value occupies in the process image.
    pub open spec fn spec_bitcnt(self) -> usize {
        match self {
            Value::Bit(_) => 1usize,
            Value::Byte(_) => 8usize,
            Value::Word(_) => 16usize,
            Value::DWord(_) => 32usize,
        }
    }

    /// Returns the number of bits this value occupies in the process image.
    pub fn bitcnt(&self) -> (r: usize)
        ensures
            r == self.spec_bitcnt(),
    {
        match self {
            Value::Bit(_) => 1,
            Value::Byte(_) => 8,
            Value::Word(_) => 16,
            Value::DWord(_) => 32,
        }
    }
}

impl From<bool> for Value {
    /// Returns a [`Value::Bit`] encapsulating the given bool.
    fn from(b: bool) -> (r: Self) {
        Value::Bit(b)
    }
}

impl vstd::std_specs::convert::FromSpecImpl<bool> for Value {
    open spec fn obeys_from_spec() -> bool {
        true
    }

    open spec fn from_spec(b: bool) -> Self {
        Value::Bit(b)
    }
}

impl From<u8> for Value {
    /// Returns a [`Value::Byte`] encapsulating the given u8.
    fn from(b: u8) -> (r: Self) {
        Value::Byte(b)
    }
}

impl vstd::std_specs::convert::FromSpecImpl<u8> for Value {
    open spec fn obeys_from_spec() -> bool {
        true
    }

    open spec fn from_spec(b: u8) -> Self {
        Value::Byte(b)
    }
}

impl From<u16> for Value {
    /// Returns a [`Value::Word`] encapsulating the given u16.
    fn from(w: u16) -> (r: Self) {
        Value::Word(w)
    }
}

impl vstd::std_specs::convert::FromSpecImpl<u16> for Value {
    open spec fn obeys_from_spec() -> bool {
        true
    }

    open spec fn from_spec(w: u16) -> Self {
        Value::Word(w)
    }
}

impl From<u32> for Value {
    /// Returns a [`Value::DWord`] encapsulating the given u32.
    fn from(d: u32) -> (r: Self) {
        Value::DWord(d)
    }
}

impl vstd::std_specs::convert::FromSpecImpl<u32> for Value {
    open spec fn obeys_from_spec() -> bool {
        true
    }

    open spec fn from_spec(d: u32) -> Self {
        Value::DWord(d)
    }
}

/// A bit inside a byte, selecting which bit a bit-level transfer reads or
/// writes. Values of eight and above are reserved by the control channel to
/// mean "whole byte", so this type only admits zero through seven.
#[derive(Debug, PartialEq, Eq, Structural, Clone, Copy)]
pub enum Bit {
    Zero,
    One,
    Two,
    Three,
    Four,
    Five,
    Six,
    Seven,
}

impl Bit {
    /// The bit position as a number, zero through seven.
    pub open spec fn spec_index(self) -> u8 {
        match self {
            Bit::Zero => 0u8,
            Bit::One => 1u8,
            Bit::Two => 2u8,
            Bit::Three => 3u8,
            Bit::Four => 4u8,
            Bit::Five => 5u8,
            Bit::Six => 6u8,
            Bit::Seven => 7u8,
        }
    }

    /// Converts a number below eight into the corresponding bit position.
    pub fn from_u8(v: u8) -> (r: Self)
        requires
            v < 8,
        ensures
            r.spec_index() == v,
    {
        match v {
            0 => Bit::Zero,
            1 => Bit::One,
            2 => Bit::Two,
            3 => Bit::Three,
            4 => Bit::Four,
            5 => Bit::Five,
            6 => Bit::Six,
            _ => Bit::Seven,
        }
    }

    /// The bit position as a number, zero through seven.
    pub fn index(&self) -> (r: u8)
        ensures
            r == self.spec_index(),
            r < 8,
    {
        match self {
            Bit::Zero => 0,
            Bit::One => 1,
            Bit::Two => 2,
            Bit::Three => 3,
            Bit::Four => 4,
            Bit::Five => 5,
            Bit::Six => 6,
            Bit::Seven => 7,
        }
    }
}

} // verus!
