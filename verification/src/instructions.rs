//! The instruction set and its decoder.
//!
//! An opcode byte is read as three fields: `x`, its two high bits; `y`, the
//! three bits below them; and `z`, its three low bits. `y` splits again into
//! `p`, its two high bits, and `q`, its low bit. The decoding table is stated
//! over these fields as plain quotients and remainders; the decoder itself
//! works with masks and shifts and is proved to agree with the table.
//!
//! The table gives every first opcode byte a meaning but four: `0xD3`,
//! `0xDB`, `0xE3` and `0xEB` are `Invalid`. A push is selected by its low
//! three bits and its pair field alone and a conditional call by its low
//! three bits and its condition field alone, so `0xDD`, `0xED` and `0xFD`
//! read as pushes and `0xE4`, `0xEC`, `0xF4` and `0xFC` as conditional calls.
//! `STOP` takes one byte. An instruction whose opcode or operands lie where
//! memory cannot be read decodes to `Unassigned` and counts as one byte, so
//! that a caller who goes on does not read the same byte forever.

use vstd::prelude::*;
use crate::aluops::Operation;
use crate::bus::{word_at, MemoryBus};
use crate::conditionals::Conditional;
use crate::direction::Direction;
use crate::registers::{Reg16, Reg8};

verus! {

/// A decoded instruction with the operands it carries.
#[derive(Copy, Clone, Debug, PartialEq, Eq, Structural)]
pub enum Instruction {
    NOP,
    LDmnnSP(u16),
    LDrrNN(Reg16, u16),
    ADDhlRR(Reg16),
    LDmrrA(Reg16),
    LDaMRR(Reg16),
    INCrr(Reg16),
    DECrr(Reg16),
    INCr(Reg8),
    DECr(Reg8),
    LDrN(Reg8, u8),
    RdCA(Direction),
    RdA(Direction),
    STOP,
    JRe(u8),
    JRcE(Conditional, u8),
    LDImhlA,
    LDIaMHL,
    LDDmhlA,
    LDDaMHL,
    DAA,
    CPL,
    SCF,
    CCF,
    LDrR(Reg8, Reg8),
    HALT,
    ALUaR(Operation, Reg8),
    ALUaN(Operation, u8),
    POPrr(Reg16),
    PUSHrr(Reg16),
    RSTn(u8),
    RETc(Conditional),
    RET,
    RETI,
    JPcNN(Conditional, u16),
    JPnn(u16),
    CALLcNN(Conditional, u16),
    CALLnn(u16),
    ADDspN(u8),
    LDhlSPpN(u8),
    LDmzpPnA(u8),
    LDaMZPpN(u8),
    LDmcA,
    LDaMC,
    LDmnnA(u16),
    LDaMNN(u16),
    JPhl,
    LDspHL,
    DI,
    EI,
    RdCr(Direction, Reg8),
    RdR(Direction, Reg8),
    SdAr(Direction, Reg8),
    SWAPr(Reg8),
    SRLr(Reg8),
    BITnR(u8, Reg8),
    RESnR(u8, Reg8),
    SETnR(u8, Reg8),
    /// No decoding rule applied: a gap in the decoder.
    Unknown,
    /// The opcode is one of the four that the table leaves without a meaning.
    Invalid,
    /// The opcode or one of its operand bytes could not be read.
    Unassigned,
}

/// The opcode that announces a second opcode byte.
pub const PREFIX: u8 = 0xCB;

/// Field `x`: bits 7 and 6.
pub open spec fn field_x(opcode: u8) -> int {
    opcode as int / 64
}

/// Field `y`: bits 5 to 3.
pub open spec fn field_y(opcode: u8) -> int {
    (opcode as int / 8) % 8
}

/// Field `z`: bits 2 to 0.
pub open spec fn field_z(opcode: u8) -> int {
    opcode as int % 8
}

/// Field `p`: bits 5 and 4.
pub open spec fn field_p(opcode: u8) -> int {
    (opcode as int / 16) % 4
}

/// Field `q`: bit 3.
pub open spec fn field_q(opcode: u8) -> int {
    (opcode as int / 8) % 2
}

/// How many operand bytes follow a first opcode byte: none, one or two. The
/// prefix counts its second opcode byte as its one operand.
pub open spec fn operand_size(opcode: u8) -> int {
    let x = field_x(opcode);
    let y = field_y(opcode);
    let z = field_z(opcode);
    let q = field_q(opcode);
    if x == 0 {
        if z == 0 {
            if y == 0 || y == 2 {
                0
            } else if y == 1 {
                2
            } else {
                1
            }
        } else if z == 1 {
            if q == 0 {
                2
            } else {
                0
            }
        } else if z == 6 {
            1
        } else {
            0
        }
    } else if x == 3 {
        if z == 0 {
            if y >= 4 {
                1
            } else {
                0
            }
        } else if z == 2 {
            if y == 4 || y == 6 {
                0
            } else {
                2
            }
        } else if z == 3 {
            if y == 0 {
                2
            } else if y == 1 {
                1
            } else {
                0
            }
        } else if z == 4 {
            2
        } else if z == 5 {
            if y == 1 {
                2
            } else {
                0
            }
        } else if z == 6 {
            1
        } else {
            0
        }
    } else {
        0
    }
}

/// The instruction that a second opcode byte selects after the prefix:
/// rotates, shifts and swaps for `x == 0`, then bit test, reset and set.
pub open spec fn decode_prefixed(opcode: u8) -> Instruction {
    let x = field_x(opcode);
    let y = field_y(opcode);
    let p = field_p(opcode);
    let direction = Direction::of_bits(field_q(opcode) as u8);
    let reg = Reg8::of_bits(field_z(opcode) as u8);
    if x == 0 {
        if p == 0 {
            Instruction::RdCr(direction, reg)
        } else if p == 1 {
            Instruction::RdR(direction, reg)
        } else if p == 2 {
            Instruction::SdAr(direction, reg)
        } else if direction == Direction::Left {
            Instruction::SWAPr(reg)
        } else {
            Instruction::SRLr(reg)
        }
    } else if x == 1 {
        Instruction::BITnR(y as u8, reg)
    } else if x == 2 {
        Instruction::RESnR(y as u8, reg)
    } else {
        Instruction::SETnR(y as u8, reg)
    }
}

/// The instruction that a first opcode byte other than the prefix selects
/// when `x == 0`: relative jumps, 16-bit loads and arithmetic, loads through a
/// pair, 8-bit increments, decrements and immediate loads, and the
/// accumulator rotates and adjustments.
pub open spec fn decode_block0(opcode: u8, n: u8, nn: u16) -> Instruction {
    let y = field_y(opcode);
    let z = field_z(opcode);
    let p = field_p(opcode);
    let q = field_q(opcode);
    let pair = Reg16::of_bits(p as u8, true);
    let reg = Reg8::of_bits(y as u8);
    if z == 0 {
        if y == 0 {
            Instruction::NOP
        } else if y == 1 {
            Instruction::LDmnnSP(nn)
        } else if y == 2 {
            Instruction::STOP
        } else if y == 3 {
            Instruction::JRe(n)
        } else {
            Instruction::JRcE(Conditional::of_bits((y - 4) as u8), n)
        }
    } else if z == 1 {
        if q == 0 {
            Instruction::LDrrNN(pair, nn)
        } else {
            Instruction::ADDhlRR(pair)
        }
    } else if z == 2 {
        if p == 2 {
            if q == 0 {
                Instruction::LDImhlA
            } else {
                Instruction::LDIaMHL
            }
        } else if p == 3 {
            if q == 0 {
                Instruction::LDDmhlA
            } else {
                Instruction::LDDaMHL
            }
        } else if q == 0 {
            Instruction::LDmrrA(pair)
        } else {
            Instruction::LDaMRR(pair)
        }
    } else if z == 3 {
        if q == 0 {
            Instruction::INCrr(pair)
        } else {
            Instruction::DECrr(pair)
        }
    } else if z == 4 {
        Instruction::INCr(reg)
    } else if z == 5 {
        Instruction::DECr(reg)
    } else if z == 6 {
        Instruction::LDrN(reg, n)
    } else if p == 0 {
        Instruction::RdCA(Direction::of_bits(q as u8))
    } else if p == 1 {
        Instruction::RdA(Direction::of_bits(q as u8))
    } else if y == 4 {
        Instruction::DAA
    } else if y == 5 {
        Instruction::CPL
    } else if y == 6 {
        Instruction::SCF
    } else {
        Instruction::CCF
    }
}

/// The instruction that a first opcode byte other than the prefix selects
/// when `x == 3`: returns, jumps and calls, stack transfers, restarts,
/// accumulator operations on an immediate, and the high-page and absolute
/// loads. A pair field here names AF where the arithmetic block names SP, and
/// a condition is read from bits 4 and 3.
pub open spec fn decode_block3(opcode: u8, n: u8, nn: u16) -> Instruction {
    let y = field_y(opcode);
    let z = field_z(opcode);
    let p = field_p(opcode);
    let q = field_q(opcode);
    let pair = Reg16::of_bits(p as u8, false);
    let condition = Conditional::of_bits((y % 4) as u8);
    if z == 0 {
        if y < 4 {
            Instruction::RETc(condition)
        } else if y == 4 {
            Instruction::LDmzpPnA(n)
        } else if y == 5 {
            Instruction::ADDspN(n)
        } else if y == 6 {
            Instruction::LDaMZPpN(n)
        } else {
            Instruction::LDhlSPpN(n)
        }
    } else if z == 1 {
        if q == 0 {
            Instruction::POPrr(pair)
        } else if p == 0 {
            Instruction::RET
        } else if p == 1 {
            Instruction::RETI
        } else if p == 2 {
            Instruction::JPhl
        } else {
            Instruction::LDspHL
        }
    } else if z == 2 {
        if y < 4 {
            Instruction::JPcNN(condition, nn)
        } else if y == 4 {
            Instruction::LDmcA
        } else if y == 5 {
            Instruction::LDmnnA(nn)
        } else if y == 6 {
            Instruction::LDaMC
        } else {
            Instruction::LDaMNN(nn)
        }
    } else if z == 3 {
        if y == 0 {
            Instruction::JPnn(nn)
        } else if y == 6 {
            Instruction::DI
        } else if y == 7 {
            Instruction::EI
        } else {
            Instruction::Invalid
        }
    } else if z == 4 {
        Instruction::CALLcNN(condition, nn)
    } else if z == 5 {
        if y == 1 {
            Instruction::CALLnn(nn)
        } else {
            Instruction::PUSHrr(pair)
        }
    } else if z == 6 {
        Instruction::ALUaN(Operation::of_bits(y as u8), n)
    } else {
        Instruction::RSTn((y * 8) as u8)
    }
}

/// The instruction that a first opcode byte selects, given the operand byte
/// `n` and the operand word `nn` that follow it. After the prefix, `n` is the
/// second opcode byte.
pub open spec fn decode_opcode(opcode: u8, n: u8, nn: u16) -> Instruction {
    let x = field_x(opcode);
    let y = field_y(opcode);
    let z = field_z(opcode);
    if opcode == PREFIX {
        decode_prefixed(n)
    } else if x == 0 {
        decode_block0(opcode, n, nn)
    } else if x == 1 {
        if y == 6 && z == 6 {
            Instruction::HALT
        } else {
            Instruction::LDrR(Reg8::of_bits(y as u8), Reg8::of_bits(z as u8))
        }
    } else if x == 2 {
        Instruction::ALUaR(Operation::of_bits(y as u8), Reg8::of_bits(z as u8))
    } else {
        decode_block3(opcode, n, nn)
    }
}

/// Whether the opcode at `pc` and all of its operand bytes can be read.
pub open spec fn readable(memory: Map<int, u8>, pc: u16) -> bool {
    &&& memory.contains_key(pc as int)
    &&& operand_size(memory[pc as int]) >= 1 ==> memory.contains_key(pc + 1)
    &&& operand_size(memory[pc as int]) >= 2 ==> memory.contains_key(pc + 2)
}

/// The instruction stored at `pc`: `Unassigned` where it cannot be read in
/// full, else what its opcode and operands select.
pub open spec fn decode(memory: Map<int, u8>, pc: u16) -> Instruction {
    if readable(memory, pc) {
        decode_opcode(memory[pc as int], memory[pc + 1], word_at(memory, pc + 1))
    } else {
        Instruction::Unassigned
    }
}

/// The number of bytes that the instruction at `pc` takes: its opcode and its
/// operands. One that cannot be read in full counts as a single byte.
pub open spec fn length(memory: Map<int, u8>, pc: u16) -> int {
    if readable(memory, pc) {
        1 + operand_size(memory[pc as int])
    } else {
        1
    }
}

/// The address `count` bytes after `pc`, wrapping from the top of the address
/// space to its bottom.
pub open spec fn advance(pc: u16, count: int) -> u16 {
    ((pc + count) % 0x1_0000) as u16
}

impl Instruction {
    /// The number of bytes that the instruction takes in memory: three with a
    /// 16-bit operand, two with an 8-bit operand or after the prefix, else one.
    pub open spec fn encoded_size(self) -> int {
        match self {
            Instruction::LDmnnSP(_)
            | Instruction::LDrrNN(_, _)
            | Instruction::JPcNN(_, _)
            | Instruction::JPnn(_)
            | Instruction::CALLcNN(_, _)
            | Instruction::CALLnn(_)
            | Instruction::LDmnnA(_)
            | Instruction::LDaMNN(_) => 3,
            Instruction::LDrN(_, _)
            | Instruction::JRe(_)
            | Instruction::JRcE(_, _)
            | Instruction::ALUaN(_, _)
            | Instruction::ADDspN(_)
            | Instruction::LDhlSPpN(_)
            | Instruction::LDmzpPnA(_)
            | Instruction::LDaMZPpN(_)
            | Instruction::RdCr(_, _)
            | Instruction::RdR(_, _)
            | Instruction::SdAr(_, _)
            | Instruction::SWAPr(_)
            | Instruction::SRLr(_)
            | Instruction::BITnR(_, _)
            | Instruction::RESnR(_, _)
            | Instruction::SETnR(_, _) => 2,
            _ => 1,
        }
    }
}

/// Whatever memory holds, the instruction at `pc` takes as many bytes as its
/// kind is documented to take, between one and three, and the decoder is
/// never at a loss: it does not answer `Unknown`.
pub proof fn lemma_length_is_encoded_size(memory: Map<int, u8>, pc: u16)
    ensures
        length(memory, pc) == decode(memory, pc).encoded_size(),
        1 <= length(memory, pc) <= 3,
        decode(memory, pc) != Instruction::Unknown,
{
    if readable(memory, pc) {
        let opcode = memory[pc as int];
        lemma_fields(opcode);
        lemma_fields(memory[pc + 1]);
    }
}

impl Instruction {
    /// Whether the instruction is one that opcodes can encode: its selectors
    /// are not reserved, a pair is one that its kind of instruction can name,
    /// a bit index is below eight and a restart vector is one of the eight.
    /// The three instructions that stand for a failed decoding are not.
    pub open spec fn encodable(self) -> bool {
        match self {
            Instruction::LDrrNN(rr, _)
            | Instruction::ADDhlRR(rr)
            | Instruction::INCrr(rr)
            | Instruction::DECrr(rr) => rr == Reg16::BC || rr == Reg16::DE || rr == Reg16::HL
                || rr == Reg16::SP,
            Instruction::LDmrrA(rr) | Instruction::LDaMRR(rr) => rr == Reg16::BC || rr
                == Reg16::DE,
            Instruction::POPrr(rr) | Instruction::PUSHrr(rr) => rr == Reg16::BC || rr
                == Reg16::DE || rr == Reg16::HL || rr == Reg16::AF,
            Instruction::INCr(r)
            | Instruction::DECr(r)
            | Instruction::LDrN(r, _)
            | Instruction::SWAPr(r)
            | Instruction::SRLr(r) => r != Reg8::Unknown,
            Instruction::LDrR(to, from) => to != Reg8::Unknown && from != Reg8::Unknown && !(to
                == Reg8::MHL && from == Reg8::MHL),
            Instruction::ALUaR(operation, r) => operation != Operation::Invalid && r
                != Reg8::Unknown,
            Instruction::ALUaN(operation, _) => operation != Operation::Invalid,
            Instruction::RdCA(d) | Instruction::RdA(d) => d != Direction::Unknown,
            Instruction::RdCr(d, r) | Instruction::RdR(d, r) | Instruction::SdAr(d, r) => d
                != Direction::Unknown && r != Reg8::Unknown,
            Instruction::BITnR(n, r) | Instruction::RESnR(n, r) | Instruction::SETnR(n, r) => n
                < 8 && r != Reg8::Unknown,
            Instruction::JRcE(c, _)
            | Instruction::JPcNN(c, _)
            | Instruction::CALLcNN(c, _)
            | Instruction::RETc(c) => c != Conditional::Invalid,
            Instruction::RSTn(n) => n % 8 == 0 && n <= 0x38,
            Instruction::Unknown | Instruction::Invalid | Instruction::Unassigned => false,
            _ => true,
        }
    }
}

/// Whatever memory holds, the decoder answers with an instruction that
/// opcodes can encode, or reports that the opcode has no meaning or could not
/// be read. In particular no field of an opcode decodes to a reserved
/// selector, the pair field 3 is SP in loads and arithmetic and AF on the
/// stack, and what follows the prefix always has a meaning.
pub proof fn lemma_decode_is_encodable(memory: Map<int, u8>, pc: u16)
    ensures
        decode(memory, pc).encodable() || decode(memory, pc) == Instruction::Invalid || decode(
            memory,
            pc,
        ) == Instruction::Unassigned,
        readable(memory, pc) && memory[pc as int] == PREFIX ==> decode(memory, pc).encodable(),
{
    if readable(memory, pc) {
        lemma_fields(memory[pc as int]);
        lemma_fields(memory[pc + 1]);
    }
}

/// How masks and shifts of an opcode read its fields.
proof fn lemma_masks(opcode: u8)
    by (bit_vector)
    ensures
        (opcode & 0b11000000) >> 6 == opcode / 64,
        (opcode & 0b00111111) >> 4 == (opcode / 16) % 4,
        (opcode & 0b00111111) >> 3 == (opcode / 8) % 8,
        ((opcode & 0b00111111) & 0b111000) >> 3 == (opcode / 8) % 8,
        ((opcode & 0b00111111) & 0b011000) >> 3 == (opcode / 8) % 4,
        ((opcode & 0b00111111) & 0b1000) >> 3 == (opcode / 8) % 2,
        (opcode & 0b00111111) & 0b111000 == ((opcode / 8) % 8) * 8,
        (opcode & 0b00111111) & 0b1111 == opcode % 16,
        ((opcode & 0b00111111) & 0b1111) & 0b111 == opcode % 8,
        (opcode & 0b00111111) & 0b111 == opcode % 8,
        (opcode & 0b00110000) >> 4 == (opcode / 16) % 4,
        (opcode & 0b00111000) >> 3 == (opcode / 8) % 8,
        (opcode & 0b00001000) >> 3 == (opcode / 8) % 2,
        opcode & 0b111 == opcode % 8,
        opcode == 64 * (opcode / 64) + 8 * ((opcode / 8) % 8) + opcode % 8,
        (opcode / 8) % 8 == 2 * ((opcode / 16) % 4) + (opcode / 8) % 2,
        opcode % 16 == 8 * ((opcode / 8) % 2) + opcode % 8,
        (opcode / 8) % 4 == ((opcode / 8) % 8) % 4,
{
}

/// An opcode is made of its fields, and masks and shifts read them.
proof fn lemma_fields(opcode: u8)
    ensures
        opcode == 64 * field_x(opcode) + 8 * field_y(opcode) + field_z(opcode),
        field_y(opcode) == 2 * field_p(opcode) + field_q(opcode),
        opcode % 16 == 8 * field_q(opcode) + field_z(opcode),
        0 <= field_x(opcode) < 4,
        (opcode & 0b11000000) >> 6 == field_x(opcode),
        (opcode & 0b00111111) >> 4 == field_p(opcode),
        (opcode & 0b00111111) >> 3 == field_y(opcode),
        ((opcode & 0b00111111) & 0b111000) >> 3 == field_y(opcode),
        ((opcode & 0b00111111) & 0b011000) >> 3 == field_y(opcode) % 4,
        ((opcode & 0b00111111) & 0b1000) >> 3 == field_q(opcode),
        (opcode & 0b00111111) & 0b111000 == field_y(opcode) * 8,
        (opcode & 0b00111111) & 0b1111 == opcode % 16,
        ((opcode & 0b00111111) & 0b1111) & 0b111 == field_z(opcode),
        (opcode & 0b00111111) & 0b111 == field_z(opcode),
        (opcode & 0b00110000) >> 4 == field_p(opcode),
        (opcode & 0b00111000) >> 3 == field_y(opcode),
        (opcode & 0b00001000) >> 3 == field_q(opcode),
        opcode & 0b111 == field_z(opcode),
{
    lemma_masks(opcode);
}

impl Instruction {
    /// Decodes a second opcode byte.
    fn fetch_prefixed(opcode: u8) -> (instruction: Instruction)
        ensures
            instruction == decode_prefixed(opcode),
    {
        proof {
            lemma_fields(opcode);
        }
        let header: u8 = (opcode & 0b11000000) >> 6;
        let reg = Reg8::from(opcode & 0b111);
        match header {
            0b00 => {
                let header: u8 = (opcode & 0b00110000) >> 4;
                let direction = Direction::from((opcode & 0b00001000) >> 3);
                match header {
                    0b00 => Instruction::RdCr(direction, reg),
                    0b01 => Instruction::RdR(direction, reg),
                    0b10 => Instruction::SdAr(direction, reg),
                    _ => {
                        if (opcode & 0b00001000) >> 3 == 0 {
                            Instruction::SWAPr(reg)
                        } else {
                            Instruction::SRLr(reg)
                        }
                    },
                }
            },
            0b01 => Instruction::BITnR((opcode & 0b00111000) >> 3, reg),
            0b10 => Instruction::RESnR((opcode & 0b00111000) >> 3, reg),
            _ => Instruction::SETnR((opcode & 0b00111000) >> 3, reg),
        }
    }

    /// Decodes the instruction at `*pc` and moves `*pc` past it: past the
    /// opcode and every operand byte, wrapping at the top of the address
    /// space. An instruction that cannot be read in full decodes to
    /// `Unassigned` and is skipped as one byte. The second component is the
    /// instruction's mnemonic.
    pub fn fetch(mem: &MemoryBus, pc: &mut u16) -> (r: (Instruction, String))
        ensures
            r.0 == decode(mem@, *old(pc)),
            r.1@ == r.0.mnemonic_text(),
            *final(pc) == advance(*old(pc), length(mem@, *old(pc))),
    {
        let instruction = Self::fetch_at(mem, pc);
        *pc = pc.wrapping_add(1);
        let name = instruction.mnemonic();
        (instruction, name)
    }

    /// Decodes the instruction at `*pc` and moves `*pc` onto its last byte.
    /// The opcodes that stand alone in the table come first; the rest are
    /// read field by field.
    fn fetch_at(mem: &MemoryBus, pc: &mut u16) -> (instruction: Instruction)
        ensures
            instruction == decode(mem@, *old(pc)),
            *final(pc) == *old(pc) + length(mem@, *old(pc)) - 1,
    {
        let opcode: u8 = match mem.get_byte(*pc) {
            Err(_) => {
                return Instruction::Unassigned;
            },
            Ok(o) => o,
        };
        proof {
            lemma_fields(opcode);
        }
        if opcode == 0x00 {
            return Instruction::NOP;
        }
        match opcode {
            0xCB => {
                return match mem.get_imm8(pc) {
                    Ok(second) => Self::fetch_prefixed(second),
                    Err(_) => Instruction::Unassigned,
                };
            },
            0x08 => {
                return match mem.get_imm16(pc) {
                    Ok(n) => Instruction::LDmnnSP(n),
                    Err(_) => Instruction::Unassigned,
                };
            },
            0x10 => {
                return Instruction::STOP;
            },
            0x18 => {
                return match mem.get_imm8(pc) {
                    Ok(n) => Instruction::JRe(n),
                    Err(_) => Instruction::Unassigned,
                };
            },
            0x22 => {
                return Instruction::LDImhlA;
            },
            0x2A => {
                return Instruction::LDIaMHL;
            },
            0x32 => {
                return Instruction::LDDmhlA;
            },
            0x3A => {
                return Instruction::LDDaMHL;
            },
            0x27 => {
                return Instruction::DAA;
            },
            0x2F => {
                return Instruction::CPL;
            },
            0x37 => {
                return Instruction::SCF;
            },
            0x3F => {
                return Instruction::CCF;
            },
            0xC9 => {
                return Instruction::RET;
            },
            0xD9 => {
                return Instruction::RETI;
            },
            0xC3 => {
                return match mem.get_imm16(pc) {
                    Ok(n) => Instruction::JPnn(n),
                    Err(_) => Instruction::Unassigned,
                };
            },
            0xCD => {
                return match mem.get_imm16(pc) {
                    Ok(n) => Instruction::CALLnn(n),
                    Err(_) => Instruction::Unassigned,
                };
            },
            0xE8 => {
                return match mem.get_imm8(pc) {
                    Ok(n) => Instruction::ADDspN(n),
                    Err(_) => Instruction::Unassigned,
                };
            },
            0xF8 => {
                return match mem.get_imm8(pc) {
                    Ok(n) => Instruction::LDhlSPpN(n),
                    Err(_) => Instruction::Unassigned,
                };
            },
            0xE0 => {
                return match mem.get_imm8(pc) {
                    Ok(n) => Instruction::LDmzpPnA(n),
                    Err(_) => Instruction::Unassigned,
                };
            },
            0xF0 => {
                return match mem.get_imm8(pc) {
                    Ok(n) => Instruction::LDaMZPpN(n),
                    Err(_) => Instruction::Unassigned,
                };
            },
            0xE2 => {
                return Instruction::LDmcA;
            },
            0xF2 => {
                return Instruction::LDaMC;
            },
            0xEA => {
                return match mem.get_imm16(pc) {
                    Ok(n) => Instruction::LDmnnA(n),
                    Err(_) => Instruction::Unassigned,
                };
            },
            0xFA => {
                return match mem.get_imm16(pc) {
                    Ok(n) => Instruction::LDaMNN(n),
                    Err(_) => Instruction::Unassigned,
                };
            },
            0xE9 => {
                return Instruction::JPhl;
            },
            0xF9 => {
                return Instruction::LDspHL;
            },
            0xF3 => {
                return Instruction::DI;
            },
            0xFB => {
                return Instruction::EI;
            },
            _ => {},
        }
        let header: u8 = (opcode & 0b11000000) >> 6;
        let six_bit_rem: u8 = opcode & 0b00111111;
        match header {
            0b00 => Self::fetch_block0(mem, pc, opcode),
            0b01 => {
                let reg1 = Reg8::from(six_bit_rem >> 3);
                let reg2 = Reg8::from(six_bit_rem & 0b111);
                if reg1 == Reg8::MHL && reg2 == Reg8::MHL {
                    Instruction::HALT
                } else {
                    Instruction::LDrR(reg1, reg2)
                }
            },
            0b10 => {
                let operation = Operation::from((six_bit_rem & 0b111000) >> 3);
                let reg = Reg8::from(six_bit_rem & 0b000111);
                Instruction::ALUaR(operation, reg)
            },
            _ => Self::fetch_block3(mem, pc, opcode),
        }
    }

    /// Reads by its fields an opcode whose two high bits are `00` and that
    /// does not stand alone in the table. `*pc` points at the opcode.
    fn fetch_block0(mem: &MemoryBus, pc: &mut u16, opcode: u8) -> (instruction: Instruction)
        requires
            mem@.contains_key(*old(pc) as int),
            opcode == mem@[*old(pc) as int],
            field_x(opcode) == 0,
            opcode != 0x00 && opcode != 0x08 && opcode != 0x10 && opcode != 0x18,
            opcode != 0x22 && opcode != 0x2A && opcode != 0x32 && opcode != 0x3A,
            opcode != 0x27 && opcode != 0x2F && opcode != 0x37 && opcode != 0x3F,
        ensures
            instruction == decode(mem@, *old(pc)),
            *final(pc) == *old(pc) + length(mem@, *old(pc)) - 1,
    {
        proof {
            lemma_fields(opcode);
        }
        let six_bit_rem: u8 = opcode & 0b00111111;
        let half: u8 = six_bit_rem & 0b1111;
        match half {
            0b0001 => {
                let reg = Reg16::from(six_bit_rem >> 4, true);
                return match mem.get_imm16(pc) {
                    Ok(n) => Instruction::LDrrNN(reg, n),
                    Err(_) => Instruction::Unassigned,
                };
            },
            0b1001 => {
                return Instruction::ADDhlRR(Reg16::from(six_bit_rem >> 4, true));
            },
            0b0010 => {
                return Instruction::LDmrrA(Reg16::from(six_bit_rem >> 4, false));
            },
            0b1010 => {
                return Instruction::LDaMRR(Reg16::from(six_bit_rem >> 4, false));
            },
            0b0011 => {
                return Instruction::INCrr(Reg16::from(six_bit_rem >> 4, true));
            },
            0b1011 => {
                return Instruction::DECrr(Reg16::from(six_bit_rem >> 4, true));
            },
            _ => {},
        }
        let half: u8 = half & 0b111;
        match half {
            0b100 => Instruction::INCr(Reg8::from(six_bit_rem >> 3)),
            0b101 => Instruction::DECr(Reg8::from(six_bit_rem >> 3)),
            0b110 => {
                let reg = Reg8::from(six_bit_rem >> 3);
                match mem.get_imm8(pc) {
                    Ok(n) => Instruction::LDrN(reg, n),
                    Err(_) => Instruction::Unassigned,
                }
            },
            0b111 => {
                let direction = Direction::from((six_bit_rem & 0b1000) >> 3);
                match six_bit_rem >> 4 {
                    0 => Instruction::RdCA(direction),
                    1 => Instruction::RdA(direction),
                    _ => Instruction::Invalid,
                }
            },
            0b000 => {
                let conditional = Conditional::from((six_bit_rem & 0b011000) >> 3);
                match mem.get_imm8(pc) {
                    Ok(n) => Instruction::JRcE(conditional, n),
                    Err(_) => Instruction::Unassigned,
                }
            },
            _ => Instruction::Invalid,
        }
    }

    /// Reads by its fields an opcode whose two high bits are `11` and that
    /// does not stand alone in the table. `*pc` points at the opcode.
    fn fetch_block3(mem: &MemoryBus, pc: &mut u16, opcode: u8) -> (instruction: Instruction)
        requires
            mem@.contains_key(*old(pc) as int),
            opcode == mem@[*old(pc) as int],
            field_x(opcode) == 3,
            opcode != 0xCB && opcode != 0xC9 && opcode != 0xD9 && opcode != 0xC3,
            opcode != 0xCD && opcode != 0xE8 && opcode != 0xF8 && opcode != 0xE0,
            opcode != 0xF0 && opcode != 0xE2 && opcode != 0xF2 && opcode != 0xEA,
            opcode != 0xFA && opcode != 0xE9 && opcode != 0xF9 && opcode != 0xF3,
            opcode != 0xFB,
        ensures
            instruction == decode(mem@, *old(pc)),
            *final(pc) == *old(pc) + length(mem@, *old(pc)) - 1,
    {
        proof {
            lemma_fields(opcode);
        }
        let six_bit_rem: u8 = opcode & 0b00111111;
        let header: u8 = six_bit_rem & 0b111;
        match header {
            0b110 => {
                let operation = Operation::from((six_bit_rem & 0b111000) >> 3);
                match mem.get_imm8(pc) {
                    Ok(n) => Instruction::ALUaN(operation, n),
                    Err(_) => Instruction::Unassigned,
                }
            },
            0b001 => Instruction::POPrr(Reg16::from(six_bit_rem >> 4, false)),
            0b101 => Instruction::PUSHrr(Reg16::from(six_bit_rem >> 4, false)),
            0b111 => Instruction::RSTn(six_bit_rem & 0b111000),
            0b000 => Instruction::RETc(Conditional::from((six_bit_rem & 0b011000) >> 3)),
            0b010 => {
                let conditional = Conditional::from((six_bit_rem & 0b011000) >> 3);
                match mem.get_imm16(pc) {
                    Ok(n) => Instruction::JPcNN(conditional, n),
                    Err(_) => Instruction::Unassigned,
                }
            },
            0b100 => {
                let conditional = Conditional::from((six_bit_rem & 0b011000) >> 3);
                match mem.get_imm16(pc) {
                    Ok(n) => Instruction::CALLcNN(conditional, n),
                    Err(_) => Instruction::Unassigned,
                }
            },
            _ => Instruction::Invalid,
        }
    }
}

} // verus!
