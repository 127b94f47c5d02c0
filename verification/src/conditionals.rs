//! Branch conditions of conditional jumps, calls and returns.

use vstd::prelude::*;

verus! {

/// The condition a conditional jump, call or return tests against the flags.
#[derive(Copy, Clone, Debug, PartialEq, Eq, Structural)]
pub enum Conditional {
    NotZero,
    Zero,
    NotCarry,
    Carry,
    Invalid,
}

impl Conditional {
    /// The condition that a two-bit field selects; anything wider selects none.
    pub open spec fn of_bits(bits: u8) -> Conditional {
        if bits == 0 {
            Conditional::NotZero
        } else if bits == 1 {
            Conditional::Zero
        } else if bits == 2 {
            Conditional::NotCarry
        } else if bits == 3 {
            Conditional::Carry
        } else {
            Conditional::Invalid
        }
    }

    /// The assembler spelling of the condition.
    pub open spec fn spec_name(self) -> Seq<char> {
        match self {
            Conditional::NotZero => "NZ"@,
            Conditional::Zero => "Z"@,
            Conditional::NotCarry => "NC"@,
            Conditional::Carry => "C"@,
            Conditional::Invalid => "Invalid Conditional"@,
        }
    }

    /// The assembler spelling of the condition.
    pub fn name(&self) -> (s: &'static str)
        ensures
            s@ == self.spec_name(),
    {
        match self {
            Conditional::NotZero => "NZ",
            Conditional::Zero => "Z",
            Conditional::NotCarry => "NC",
            Conditional::Carry => "C",
            Conditional::Invalid => "Invalid Conditional",
        }
    }
}

impl From<u8> for Conditional {
    fn from(bits: u8) -> (c: Conditional) {
        match bits {
            0b00 => Conditional::NotZero,
            0b01 => Conditional::Zero,
            0b10 => Conditional::NotCarry,
            0b11 => Conditional::Carry,
            _ => Conditional::Invalid,
        }
    }
}

impl vstd::std_specs::convert::FromSpecImpl<u8> for Conditional {
    open spec fn obeys_from_spec() -> bool {
        true
    }

    open spec fn from_spec(bits: u8) -> Conditional {
        Conditional::of_bits(bits)
    }
}

} // verus!
