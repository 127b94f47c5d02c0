//! Register selectors and the register file.

use vstd::prelude::*;
use crate::common::{combine_bytes, high_of, low_of, split_word, word_of};
use crate::flags::RegFlags;

verus! {

/// An 8-bit operand slot: one of the seven registers, or the byte in memory
/// that HL points at.
#[derive(Copy, Clone, Debug, PartialEq, Eq, Structural)]
pub enum Reg8 {
    B,
    C,
    D,
    E,
    H,
    L,
    MHL,
    A,
    Unknown,
}

/// A 16-bit register pair.
#[derive(Copy, Clone, Debug, PartialEq, Eq, Structural)]
pub enum Reg16 {
    BC,
    DE,
    HL,
    SP,
    AF,
    Unknown,
}

impl Reg8 {
    /// The slot that a three-bit field selects; anything wider selects none.
    pub open spec fn of_bits(bits: u8) -> Reg8 {
        if bits == 0 {
            Reg8::B
        } else if bits == 1 {
            Reg8::C
        } else if bits == 2 {
            Reg8::D
        } else if bits == 3 {
            Reg8::E
        } else if bits == 4 {
            Reg8::H
        } else if bits == 5 {
            Reg8::L
        } else if bits == 6 {
            Reg8::MHL
        } else if bits == 7 {
            Reg8::A
        } else {
            Reg8::Unknown
        }
    }

    /// The assembler spelling of the slot.
    pub open spec fn spec_name(self) -> Seq<char> {
        match self {
            Reg8::B => "B"@,
            Reg8::C => "C"@,
            Reg8::D => "D"@,
            Reg8::E => "E"@,
            Reg8::H => "H"@,
            Reg8::L => "L"@,
            Reg8::MHL => "(HL)"@,
            Reg8::A => "A"@,
            Reg8::Unknown => "Unknown Register"@,
        }
    }

    /// The assembler spelling of the slot.
    pub fn name(&self) -> (s: &'static str)
        ensures
            s@ == self.spec_name(),
    {
        match self {
            Reg8::B => "B",
            Reg8::C => "C",
            Reg8::D => "D",
            Reg8::E => "E",
            Reg8::H => "H",
            Reg8::L => "L",
            Reg8::MHL => "(HL)",
            Reg8::A => "A",
            Reg8::Unknown => "Unknown Register",
        }
    }
}

impl From<u8> for Reg8 {
    fn from(bits: u8) -> (reg: Reg8) {
        match bits {
            0b000 => Reg8::B,
            0b001 => Reg8::C,
            0b010 => Reg8::D,
            0b011 => Reg8::E,
            0b100 => Reg8::H,
            0b101 => Reg8::L,
            0b110 => Reg8::MHL,
            0b111 => Reg8::A,
            _ => Reg8::Unknown,
        }
    }
}

impl vstd::std_specs::convert::FromSpecImpl<u8> for Reg8 {
    open spec fn obeys_from_spec() -> bool {
        true
    }

    open spec fn from_spec(bits: u8) -> Reg8 {
        Reg8::of_bits(bits)
    }
}

impl Reg16 {
    /// The pair that a two-bit field selects. The field value 3 names SP where
    /// the instruction does stack-pointer arithmetic and AF where it pushes or
    /// pops; `want_sp` says which. Anything wider selects none.
    pub open spec fn of_bits(bits: u8, want_sp: bool) -> Reg16 {
        if bits == 0 {
            Reg16::BC
        } else if bits == 1 {
            Reg16::DE
        } else if bits == 2 {
            Reg16::HL
        } else if bits == 3 {
            if want_sp {
                Reg16::SP
            } else {
                Reg16::AF
            }
        } else {
            Reg16::Unknown
        }
    }

    /// Decodes a two-bit pair field; `want_sp` settles what the value 3 names.
    pub fn from(bits: u8, want_sp: bool) -> (reg: Reg16)
        ensures
            reg == Reg16::of_bits(bits, want_sp),
    {
        match bits {
            0b00 => Reg16::BC,
            0b01 => Reg16::DE,
            0b10 => Reg16::HL,
            0b11 => {
                if want_sp {
                    Reg16::SP
                } else {
                    Reg16::AF
                }
            },
            _ => Reg16::Unknown,
        }
    }

    /// The assembler spelling of the pair.
    pub open spec fn spec_name(self) -> Seq<char> {
        match self {
            Reg16::BC => "BC"@,
            Reg16::DE => "DE"@,
            Reg16::HL => "HL"@,
            Reg16::SP => "SP"@,
            Reg16::AF => "AF"@,
            Reg16::Unknown => "Unknown Register"@,
        }
    }

    /// The assembler spelling of the pair.
    pub fn name(&self) -> (s: &'static str)
        ensures
            s@ == self.spec_name(),
    {
        match self {
            Reg16::BC => "BC",
            Reg16::DE => "DE",
            Reg16::HL => "HL",
            Reg16::SP => "SP",
            Reg16::AF => "AF",
            Reg16::Unknown => "Unknown Register",
        }
    }
}

/// The register file: seven 8-bit registers, the flags, the stack pointer and
/// the program counter.
#[derive(Copy, Clone, Debug, PartialEq, Eq, Structural)]
pub struct Registers {
    pub a: u8,
    pub b: u8,
    pub c: u8,
    pub d: u8,
    pub e: u8,
    pub h: u8,
    pub l: u8,
    pub f: RegFlags,
    pub sp: u16,
    pub pc: u16,
}

impl Registers {
    /// The register file with every register zero and every flag clear.
    pub open spec fn zeroed() -> Registers {
        Registers {
            a: 0,
            b: 0,
            c: 0,
            d: 0,
            e: 0,
            h: 0,
            l: 0,
            f: RegFlags::cleared(),
            sp: 0,
            pc: 0,
        }
    }

    /// The value of an 8-bit register; `None` for the memory slot and for the
    /// reserved selector, which name no register.
    pub open spec fn peek8(self, reg: Reg8) -> Option<u8> {
        match reg {
            Reg8::B => Some(self.b),
            Reg8::C => Some(self.c),
            Reg8::D => Some(self.d),
            Reg8::E => Some(self.e),
            Reg8::H => Some(self.h),
            Reg8::L => Some(self.l),
            Reg8::A => Some(self.a),
            Reg8::MHL => None,
            Reg8::Unknown => None,
        }
    }

    /// The register file after `value` is stored in an 8-bit register;
    /// unchanged for the memory slot and for the reserved selector.
    pub open spec fn poke8(self, reg: Reg8, value: u8) -> Registers {
        match reg {
            Reg8::B => Registers { b: value, ..self },
            Reg8::C => Registers { c: value, ..self },
            Reg8::D => Registers { d: value, ..self },
            Reg8::E => Registers { e: value, ..self },
            Reg8::H => Registers { h: value, ..self },
            Reg8::L => Registers { l: value, ..self },
            Reg8::A => Registers { a: value, ..self },
            Reg8::MHL => self,
            Reg8::Unknown => self,
        }
    }

    /// The value of a register pair, first register high and second low; AF has
    /// the accumulator high and the packed flags low. `None` for the reserved
    /// selector.
    pub open spec fn peek16(self, reg: Reg16) -> Option<u16> {
        match reg {
            Reg16::BC => Some(word_of(self.c, self.b)),
            Reg16::DE => Some(word_of(self.e, self.d)),
            Reg16::HL => Some(word_of(self.l, self.h)),
            Reg16::SP => Some(self.sp),
            Reg16::AF => Some(word_of(self.f.packed() as u8, self.a)),
            Reg16::Unknown => None,
        }
    }

    /// The register file after `value` is stored in a register pair: both
    /// halves change together. AF keeps of the low byte only the four flag
    /// bits. Unchanged for the reserved selector.
    pub open spec fn poke16(self, reg: Reg16, value: u16) -> Registers {
        match reg {
            Reg16::BC => Registers { b: high_of(value), c: low_of(value), ..self },
            Reg16::DE => Registers { d: high_of(value), e: low_of(value), ..self },
            Reg16::HL => Registers { h: high_of(value), l: low_of(value), ..self },
            Reg16::SP => Registers { sp: value, ..self },
            Reg16::AF => Registers {
                a: high_of(value),
                f: RegFlags::unpacked(low_of(value)),
                ..self
            },
            Reg16::Unknown => self,
        }
    }

    /// The pair HL as a word.
    pub open spec fn spec_hl(self) -> u16 {
        word_of(self.l, self.h)
    }

    /// Reads an 8-bit register. The memory slot and the reserved selector name
    /// no register and give `None`.
    pub fn read8(&self, reg: Reg8) -> (value: Option<u8>)
        ensures
            value == self.peek8(reg),
    {
        match reg {
            Reg8::B => Some(self.b),
            Reg8::C => Some(self.c),
            Reg8::D => Some(self.d),
            Reg8::E => Some(self.e),
            Reg8::H => Some(self.h),
            Reg8::L => Some(self.l),
            Reg8::A => Some(self.a),
            _ => None,
        }
    }

    /// Writes an 8-bit register and says whether the selector named one.
    pub fn write8(&mut self, reg: Reg8, value: u8) -> (written: bool)
        ensures
            *final(self) == old(self).poke8(reg, value),
            written == old(self).peek8(reg).is_some(),
    {
        match reg {
            Reg8::B => {
                self.b = value;
                true
            },
            Reg8::C => {
                self.c = value;
                true
            },
            Reg8::D => {
                self.d = value;
                true
            },
            Reg8::E => {
                self.e = value;
                true
            },
            Reg8::H => {
                self.h = value;
                true
            },
            Reg8::L => {
                self.l = value;
                true
            },
            Reg8::A => {
                self.a = value;
                true
            },
            _ => false,
        }
    }

    /// The pair HL as a word.
    pub fn hl(&self) -> (value: u16)
        ensures
            value == self.spec_hl(),
    {
        combine_bytes(self.l, self.h)
    }

    /// Reads a register pair. The reserved selector gives `None`.
    pub fn read16(&self, reg: Reg16) -> (value: Option<u16>)
        ensures
            value == self.peek16(reg),
    {
        match reg {
            Reg16::BC => Some(combine_bytes(self.c, self.b)),
            Reg16::DE => Some(combine_bytes(self.e, self.d)),
            Reg16::HL => Some(combine_bytes(self.l, self.h)),
            Reg16::SP => Some(self.sp),
            Reg16::AF => Some(combine_bytes(u8::from(self.f), self.a)),
            Reg16::Unknown => None,
        }
    }

    /// Writes a register pair, both halves at once, and says whether the
    /// selector named one.
    pub fn write16(&mut self, reg: Reg16, value: u16) -> (written: bool)
        ensures
            *final(self) == old(self).poke16(reg, value),
            written == old(self).peek16(reg).is_some(),
    {
        let (low, high) = split_word(value);
        match reg {
            Reg16::BC => {
                self.b = high;
                self.c = low;
                true
            },
            Reg16::DE => {
                self.d = high;
                self.e = low;
                true
            },
            Reg16::HL => {
                self.h = high;
                self.l = low;
                true
            },
            Reg16::SP => {
                self.sp = value;
                true
            },
            Reg16::AF => {
                self.a = high;
                self.f = RegFlags::from(low);
                true
            },
            Reg16::Unknown => false,
        }
    }
}

impl Default for Registers {
    fn default() -> (registers: Registers)
        ensures
            registers == Registers::zeroed(),
    {
        Registers {
            a: 0,
            b: 0,
            c: 0,
            d: 0,
            e: 0,
            h: 0,
            l: 0,
            f: RegFlags { z: false, n: false, h: false, c: false },
            sp: 0,
            pc: 0,
        }
    }
}

/// A pair read back after a write holds what was written; for AF, what was
/// written with the four unused bits of the flag byte cleared.
pub proof fn lemma_pair_write_then_read(registers: Registers, reg: Reg16, value: u16)
    requires
        reg != Reg16::Unknown,
    ensures
        reg != Reg16::AF ==> registers.poke16(reg, value).peek16(reg) == Some(value),
        reg == Reg16::AF ==> registers.poke16(reg, value).peek16(reg) == Some(
            (value - value % 256 + value % 16) as u16,
        ),
{
    crate::flags::lemma_unpack_then_pack(low_of(value));
}

} // verus!
