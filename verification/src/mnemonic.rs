//! The text that names an instruction in diagnostics.

use vstd::prelude::*;
use crate::instructions::Instruction;

verus! {

/// The lower-case hexadecimal digit for a value below sixteen.
pub open spec fn hex_digit_text(digit: int) -> Seq<char> {
    if digit == 0 {
        "0"@
    } else if digit == 1 {
        "1"@
    } else if digit == 2 {
        "2"@
    } else if digit == 3 {
        "3"@
    } else if digit == 4 {
        "4"@
    } else if digit == 5 {
        "5"@
    } else if digit == 6 {
        "6"@
    } else if digit == 7 {
        "7"@
    } else if digit == 8 {
        "8"@
    } else if digit == 9 {
        "9"@
    } else if digit == 10 {
        "a"@
    } else if digit == 11 {
        "b"@
    } else if digit == 12 {
        "c"@
    } else if digit == 13 {
        "d"@
    } else if digit == 14 {
        "e"@
    } else {
        "f"@
    }
}

/// A byte as `0x` and two hexadecimal digits.
pub open spec fn hex8_text(value: u8) -> Seq<char> {
    "0x"@ + hex_digit_text(value as int / 16) + hex_digit_text(value as int % 16)
}

/// A word as `0x` and four hexadecimal digits.
pub open spec fn hex16_text(value: u16) -> Seq<char> {
    "0x"@ + hex_digit_text(value as int / 4096) + hex_digit_text((value as int / 256) % 16)
        + hex_digit_text((value as int / 16) % 16) + hex_digit_text(value as int % 16)
}

/// The lower-case hexadecimal digit for a value below sixteen.
fn hex_digit(digit: u8) -> (s: &'static str)
    requires
        digit < 16,
    ensures
        s@ == hex_digit_text(digit as int),
{
    match digit {
        0 => "0",
        1 => "1",
        2 => "2",
        3 => "3",
        4 => "4",
        5 => "5",
        6 => "6",
        7 => "7",
        8 => "8",
        9 => "9",
        10 => "a",
        11 => "b",
        12 => "c",
        13 => "d",
        14 => "e",
        _ => "f",
    }
}

/// Writes a byte as `0x` and two hexadecimal digits.
pub fn hex8(value: u8) -> (s: String)
    ensures
        s@ == hex8_text(value),
{
    let mut s = String::from_str("0x");
    s.append(hex_digit(value / 16));
    s.append(hex_digit(value % 16));
    s
}

/// Writes a word as `0x` and four hexadecimal digits.
pub fn hex16(value: u16) -> (s: String)
    ensures
        s@ == hex16_text(value),
{
    let mut s = String::from_str("0x");
    s.append(hex_digit((value / 4096) as u8));
    s.append(hex_digit(((value / 256) % 16) as u8));
    s.append(hex_digit(((value / 16) % 16) as u8));
    s.append(hex_digit((value % 16) as u8));
    s
}

/// `head`, then `tail`.
fn join2(head: &str, tail: &str) -> (s: String)
    ensures
        s@ == head@ + tail@,
{
    let mut s = String::from_str(head);
    s.append(tail);
    s
}

/// `head`, then `first`, then `", "`, then `second`.
fn join_pair(head: &str, first: &str, second: &str) -> (s: String)
    ensures
        s@ == head@ + first@ + ", "@ + second@,
{
    let mut s = String::from_str(head);
    s.append(first);
    s.append(", ");
    s.append(second);
    s
}

/// `head`, then `middle`, then `tail`.
fn join3(head: &str, middle: &str, tail: &str) -> (s: String)
    ensures
        s@ == head@ + middle@ + tail@,
{
    let mut s = String::from_str(head);
    s.append(middle);
    s.append(tail);
    s
}

impl Instruction {
    /// The mnemonic of the instruction: its assembler name and its operands,
    /// numbers in hexadecimal.
    pub open spec fn mnemonic_text(self) -> Seq<char> {
        match self {
            Instruction::NOP => "NOP"@,
            Instruction::LDmnnSP(nn) => "LD ("@ + hex16_text(nn) + "), SP"@,
            Instruction::LDrrNN(rr, nn) => "LD "@ + rr.spec_name() + ", "@ + hex16_text(nn),
            Instruction::ADDhlRR(rr) => "ADD HL, "@ + rr.spec_name(),
            Instruction::LDmrrA(rr) => "LD ("@ + rr.spec_name() + "), A"@,
            Instruction::LDaMRR(rr) => "LD A, ("@ + rr.spec_name() + ")"@,
            Instruction::INCrr(rr) => "INC "@ + rr.spec_name(),
            Instruction::DECrr(rr) => "DEC "@ + rr.spec_name(),
            Instruction::INCr(r) => "INC "@ + r.spec_name(),
            Instruction::DECr(r) => "DEC "@ + r.spec_name(),
            Instruction::LDrN(r, n) => "LD "@ + r.spec_name() + ", "@ + hex8_text(n),
            Instruction::RdCA(d) => "RdCA "@ + d.spec_name(),
            Instruction::RdA(d) => "RdA "@ + d.spec_name(),
            Instruction::STOP => "STOP"@,
            Instruction::JRe(n) => "JR "@ + hex8_text(n),
            Instruction::JRcE(c, n) => "JR "@ + c.spec_name() + ", "@ + hex8_text(n),
            Instruction::LDImhlA => "LDI (HL), A"@,
            Instruction::LDIaMHL => "LDI A, (HL)"@,
            Instruction::LDDmhlA => "LDD (HL), A"@,
            Instruction::LDDaMHL => "LDD A, (HL)"@,
            Instruction::DAA => "DAA"@,
            Instruction::CPL => "CPL"@,
            Instruction::SCF => "SCF"@,
            Instruction::CCF => "CCF"@,
            Instruction::LDrR(r1, r2) => "LD "@ + r1.spec_name() + ", "@ + r2.spec_name(),
            Instruction::HALT => "HALT"@,
            Instruction::ALUaR(op, r) => op.spec_name() + " A, "@ + r.spec_name(),
            Instruction::ALUaN(op, n) => op.spec_name() + " A, "@ + hex8_text(n),
            Instruction::POPrr(rr) => "POP "@ + rr.spec_name(),
            Instruction::PUSHrr(rr) => "PUSH "@ + rr.spec_name(),
            Instruction::RSTn(n) => "RST "@ + hex8_text(n),
            Instruction::RETc(c) => "RET "@ + c.spec_name(),
            Instruction::RET => "RET"@,
            Instruction::RETI => "RETI"@,
            Instruction::JPcNN(c, nn) => "JP "@ + c.spec_name() + ", "@ + hex16_text(nn),
            Instruction::JPnn(nn) => "JP "@ + hex16_text(nn),
            Instruction::CALLcNN(c, nn) => "CALL "@ + c.spec_name() + ", "@ + hex16_text(nn),
            Instruction::CALLnn(nn) => "CALL "@ + hex16_text(nn),
            Instruction::ADDspN(n) => "ADD SP, "@ + hex8_text(n),
            Instruction::LDhlSPpN(n) => "LD HL, SP+"@ + hex8_text(n),
            Instruction::LDmzpPnA(n) => "LD (0xFF00+"@ + hex8_text(n) + "), A"@,
            Instruction::LDaMZPpN(n) => "LD A, (0xFF00+"@ + hex8_text(n) + ")"@,
            Instruction::LDmcA => "LD (0xFF00+C), A"@,
            Instruction::LDaMC => "LD A, (0xFF00+C)"@,
            Instruction::LDmnnA(nn) => "LD ("@ + hex16_text(nn) + "), A"@,
            Instruction::LDaMNN(nn) => "LD A, ("@ + hex16_text(nn) + ")"@,
            Instruction::JPhl => "JP HL"@,
            Instruction::LDspHL => "LD SP, HL"@,
            Instruction::DI => "DI"@,
            Instruction::EI => "EI"@,
            Instruction::RdCr(d, r) => "RdCr "@ + d.spec_name() + ", "@ + r.spec_name(),
            Instruction::RdR(d, r) => "RdR "@ + d.spec_name() + ", "@ + r.spec_name(),
            Instruction::SdAr(d, r) => "SdAr "@ + d.spec_name() + ", "@ + r.spec_name(),
            Instruction::SWAPr(r) => "SWAP "@ + r.spec_name(),
            Instruction::SRLr(r) => "SRL "@ + r.spec_name(),
            Instruction::BITnR(n, r) => "BIT "@ + hex8_text(n) + ", "@ + r.spec_name(),
            Instruction::RESnR(n, r) => "RES "@ + hex8_text(n) + ", "@ + r.spec_name(),
            Instruction::SETnR(n, r) => "SET "@ + hex8_text(n) + ", "@ + r.spec_name(),
            Instruction::Unknown => "Unknown"@,
            Instruction::Invalid => "Invalid"@,
            Instruction::Unassigned => "Unassigned"@,
        }
    }

    /// Writes the mnemonic of the instruction.
    pub fn mnemonic(&self) -> (s: String)
        ensures
            s@ == self.mnemonic_text(),
    {
        match *self {
            Instruction::NOP => String::from_str("NOP"),
            Instruction::LDmnnSP(nn) => join3("LD (", hex16(nn).as_str(), "), SP"),
            Instruction::LDrrNN(rr, nn) => join_pair("LD ", rr.name(), hex16(nn).as_str()),
            Instruction::ADDhlRR(rr) => join2("ADD HL, ", rr.name()),
            Instruction::LDmrrA(rr) => join3("LD (", rr.name(), "), A"),
            Instruction::LDaMRR(rr) => join3("LD A, (", rr.name(), ")"),
            Instruction::INCrr(rr) => join2("INC ", rr.name()),
            Instruction::DECrr(rr) => join2("DEC ", rr.name()),
            Instruction::INCr(r) => join2("INC ", r.name()),
            Instruction::DECr(r) => join2("DEC ", r.name()),
            Instruction::LDrN(r, n) => join_pair("LD ", r.name(), hex8(n).as_str()),
            Instruction::RdCA(d) => join2("RdCA ", d.name()),
            Instruction::RdA(d) => join2("RdA ", d.name()),
            Instruction::STOP => String::from_str("STOP"),
            Instruction::JRe(n) => join2("JR ", hex8(n).as_str()),
            Instruction::JRcE(c, n) => join_pair("JR ", c.name(), hex8(n).as_str()),
            Instruction::LDImhlA => String::from_str("LDI (HL), A"),
            Instruction::LDIaMHL => String::from_str("LDI A, (HL)"),
            Instruction::LDDmhlA => String::from_str("LDD (HL), A"),
            Instruction::LDDaMHL => String::from_str("LDD A, (HL)"),
            Instruction::DAA => String::from_str("DAA"),
            Instruction::CPL => String::from_str("CPL"),
            Instruction::SCF => String::from_str("SCF"),
            Instruction::CCF => String::from_str("CCF"),
            Instruction::LDrR(r1, r2) => join_pair("LD ", r1.name(), r2.name()),
            Instruction::HALT => String::from_str("HALT"),
            Instruction::ALUaR(op, r) => join3(op.name(), " A, ", r.name()),
            Instruction::ALUaN(op, n) => join3(op.name(), " A, ", hex8(n).as_str()),
            Instruction::POPrr(rr) => join2("POP ", rr.name()),
            Instruction::PUSHrr(rr) => join2("PUSH ", rr.name()),
            Instruction::RSTn(n) => join2("RST ", hex8(n).as_str()),
            Instruction::RETc(c) => join2("RET ", c.name()),
            Instruction::RET => String::from_str("RET"),
            Instruction::RETI => String::from_str("RETI"),
            Instruction::JPcNN(c, nn) => join_pair("JP ", c.name(), hex16(nn).as_str()),
            Instruction::JPnn(nn) => join2("JP ", hex16(nn).as_str()),
            Instruction::CALLcNN(c, nn) => join_pair("CALL ", c.name(), hex16(nn).as_str()),
            Instruction::CALLnn(nn) => join2("CALL ", hex16(nn).as_str()),
            Instruction::ADDspN(n) => join2("ADD SP, ", hex8(n).as_str()),
            Instruction::LDhlSPpN(n) => join2("LD HL, SP+", hex8(n).as_str()),
            Instruction::LDmzpPnA(n) => join3("LD (0xFF00+", hex8(n).as_str(), "), A"),
            Instruction::LDaMZPpN(n) => join3("LD A, (0xFF00+", hex8(n).as_str(), ")"),
            Instruction::LDmcA => String::from_str("LD (0xFF00+C), A"),
            Instruction::LDaMC => String::from_str("LD A, (0xFF00+C)"),
            Instruction::LDmnnA(nn) => join3("LD (", hex16(nn).as_str(), "), A"),
            Instruction::LDaMNN(nn) => join3("LD A, (", hex16(nn).as_str(), ")"),
            Instruction::JPhl => String::from_str("JP HL"),
            Instruction::LDspHL => String::from_str("LD SP, HL"),
            Instruction::DI => String::from_str("DI"),
            Instruction::EI => String::from_str("EI"),
            Instruction::RdCr(d, r) => join_pair("RdCr ", d.name(), r.name()),
            Instruction::RdR(d, r) => join_pair("RdR ", d.name(), r.name()),
            Instruction::SdAr(d, r) => join_pair("SdAr ", d.name(), r.name()),
            Instruction::SWAPr(r) => join2("SWAP ", r.name()),
            Instruction::SRLr(r) => join2("SRL ", r.name()),
            Instruction::BITnR(n, r) => join_pair("BIT ", hex8(n).as_str(), r.name()),
            Instruction::RESnR(n, r) => join_pair("RES ", hex8(n).as_str(), r.name()),
            Instruction::SETnR(n, r) => join_pair("SET ", hex8(n).as_str(), r.name()),
            Instruction::Unknown => String::from_str("Unknown"),
            Instruction::Invalid => String::from_str("Invalid"),
            Instruction::Unassigned => String::from_str("Unassigned"),
        }
    }
}

} // verus!
