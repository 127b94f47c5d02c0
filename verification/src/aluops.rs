//! The eight accumulator operations that a three-bit opcode field selects.

use vstd::prelude::*;

verus! {

/// An 8-bit arithmetic or logic operation on the accumulator.
#[derive(Copy, Clone, Debug, PartialEq, Eq, Structural)]
pub enum Operation {
    ADD,
    ADC,
    SUB,
    SBC,
    AND,
    XOR,
    OR,
    CP,
    Invalid,
}

impl Operation {
    /// The operation that a three-bit field selects; anything wider selects none.
    pub open spec fn of_bits(bits: u8) -> Operation {
        if bits == 0 {
            Operation::ADD
        } else if bits == 1 {
            Operation::ADC
        } else if bits == 2 {
            Operation::SUB
        } else if bits == 3 {
            Operation::SBC
        } else if bits == 4 {
            Operation::AND
        } else if bits == 5 {
            Operation::XOR
        } else if bits == 6 {
            Operation::OR
        } else if bits == 7 {
            Operation::CP
        } else {
            Operation::Invalid
        }
    }

    /// The assembler spelling of the operation.
    pub open spec fn spec_name(self) -> Seq<char> {
        match self {
            Operation::ADD => "ADD"@,
            Operation::ADC => "ADC"@,
            Operation::SUB => "SUB"@,
            Operation::SBC => "SBC"@,
            Operation::AND => "AND"@,
            Operation::XOR => "XOR"@,
            Operation::OR => "OR"@,
            Operation::CP => "CP"@,
            Operation::Invalid => "Invalid ALU Operation"@,
        }
    }

    /// The assembler spelling of the operation.
    pub fn name(&self) -> (s: &'static str)
        ensures
            s@ == self.spec_name(),
    {
        match self {
            Operation::ADD => "ADD",
            Operation::ADC => "ADC",
            Operation::SUB => "SUB",
            Operation::SBC => "SBC",
            Operation::AND => "AND",
            Operation::XOR => "XOR",
            Operation::OR => "OR",
            Operation::CP => "CP",
            Operation::Invalid => "Invalid ALU Operation",
        }
    }
}

impl From<u8> for Operation {
    fn from(bits: u8) -> (op: Operation) {
        match bits {
            0b000 => Operation::ADD,
            0b001 => Operation::ADC,
            0b010 => Operation::SUB,
            0b011 => Operation::SBC,
            0b100 => Operation::AND,
            0b101 => Operation::XOR,
            0b110 => Operation::OR,
            0b111 => Operation::CP,
            _ => Operation::Invalid,
        }
    }
}

impl vstd::std_specs::convert::FromSpecImpl<u8> for Operation {
    open spec fn obeys_from_spec() -> bool {
        true
    }

    open spec fn from_spec(bits: u8) -> Operation {
        Operation::of_bits(bits)
    }
}

} // verus!
