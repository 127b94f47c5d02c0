//! The direction of a rotate or shift.

use vstd::prelude::*;

verus! {

/// Which way a rotate or shift moves the bits.
#[derive(Copy, Clone, Debug, PartialEq, Eq, Structural)]
pub enum Direction {
    Left,
    Right,
    Unknown,
}

impl Direction {
    /// The direction that a one-bit field selects; anything wider selects none.
    pub open spec fn of_bits(bits: u8) -> Direction {
        if bits == 0 {
            Direction::Left
        } else if bits == 1 {
            Direction::Right
        } else {
            Direction::Unknown
        }
    }

    /// The direction spelled out.
    pub open spec fn spec_name(self) -> Seq<char> {
        match self {
            Direction::Left => "Left"@,
            Direction::Right => "Right"@,
            Direction::Unknown => "Unknown Direction"@,
        }
    }

    /// The direction spelled out.
    pub fn name(&self) -> (s: &'static str)
        ensures
            s@ == self.spec_name(),
    {
        match self {
            Direction::Left => "Left",
            Direction::Right => "Right",
            Direction::Unknown => "Unknown Direction",
        }
    }
}

impl From<u8> for Direction {
    fn from(bits: u8) -> (d: Direction) {
        match bits {
            0b0 => Direction::Left,
            0b1 => Direction::Right,
            _ => Direction::Unknown,
        }
    }
}

impl vstd::std_specs::convert::FromSpecImpl<u8> for Direction {
    open spec fn obeys_from_spec() -> bool {
        true
    }

    open spec fn from_spec(bits: u8) -> Direction {
        Direction::of_bits(bits)
    }
}

} // verus!
