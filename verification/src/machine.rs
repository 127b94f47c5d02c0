//! The processor as the contracts see it, and the meaning of every
//! instruction on it.
//!
//! [`Machine`] holds what the processor holds, with memory as a mathematical
//! map from backed addresses to bytes. What an instruction does is a function
//! from a machine and the instruction to the machine afterwards and the way
//! the instruction ended.
//!
//! An instruction runs with the program counter already past it, so a
//! relative jump counts from the instruction that follows and a call pushes
//! the address to return to.
//!
//! An instruction that fails changes nothing. The one failure that still
//! moves the machine is a relative jump that leaves the 16-bit range: the
//! wrapped counter is kept and the overflow is reported, so that whoever
//! drives the machine may go on. A counter that wraps on its way past an
//! instruction is no failure of the instruction: a cycle tells of it apart
//! from the instruction's result, whatever that result is.
//!
//! `HALT` and `STOP` set the `halted` mark and do nothing else. Nothing can
//! clear it, since interrupts are not modelled; whoever drives the machine is
//! expected to stop once it is set.
//!
//! The instruction set is stated in four parts, each hidden behind its name
//! until a proof asks for it with `reveal`.

use vstd::prelude::*;
use crate::alu::{
    add16_spec, add_sp_spec, alu_spec, bit_spec, complement_spec, daa_spec, dec8_spec, inc8_spec,
    reset_bit_spec, rotate_spec, set_bit_spec, shift_spec, shifted_flags, srl_spec, swap_spec,
};
use crate::aluops::Operation;
use crate::bus::{store_word, word_at};
use crate::common::signed_of;
use crate::conditionals::Conditional;
use crate::flags::RegFlags;
use crate::instructions::{advance, decode, length, Instruction};
use crate::registers::{Reg16, Reg8, Registers};

verus! {

/// Why a cycle did not run cleanly.
#[derive(Copy, Clone, Debug, PartialEq, Eq, Structural)]
pub enum ExecError {
    /// A memory access touched an address that no region backs.
    UnassignedAddress,
    /// The instruction names a reserved register, condition, operation or
    /// direction, a bit index above 7, or is itself the reserved instruction.
    InvalidEncoding,
    /// The instruction could not be read from memory in full.
    UnassignedOpcode,
    /// The decoder had no rule for the opcode.
    UnknownOpcode,
    /// Computing the program counter left the 16-bit range.
    ProgramCounterOverflow,
}

impl ExecError {
    /// The text of the diagnostic.
    pub open spec fn message_text(self) -> Seq<char> {
        match self {
            ExecError::UnassignedAddress => "CPU tried to access unassigned part of memory"@,
            ExecError::InvalidEncoding => "Invalid instruction"@,
            ExecError::UnassignedOpcode => "Unassigned instruction"@,
            ExecError::UnknownOpcode => "Unknown instruction? That's not supposed to happen"@,
            ExecError::ProgramCounterOverflow => "Program counter overflowed"@,
        }
    }

    /// The text of the diagnostic.
    pub fn message(&self) -> (s: &'static str)
        ensures
            s@ == self.message_text(),
    {
        match self {
            ExecError::UnassignedAddress => "CPU tried to access unassigned part of memory",
            ExecError::InvalidEncoding => "Invalid instruction",
            ExecError::UnassignedOpcode => "Unassigned instruction",
            ExecError::UnknownOpcode => "Unknown instruction? That's not supposed to happen",
            ExecError::ProgramCounterOverflow => "Program counter overflowed",
        }
    }
}

/// The processor as the contracts see it: the register file, memory as a map
/// from backed addresses to bytes, the interrupt-enable mark and the halted
/// mark.
pub struct Machine {
    pub registers: Registers,
    pub memory: Map<int, u8>,
    pub interrupts_enabled: bool,
    pub halted: bool,
}

/// A machine after an instruction, and how the instruction ended.
pub type Outcome = (Machine, Result<(), ExecError>);

/// `value` reduced to the 16-bit range.
pub open spec fn wrap16(value: int) -> u16 {
    (value % 0x1_0000) as u16
}

impl Machine {
    /// The pair HL.
    pub open spec fn hl(self) -> u16 {
        self.registers.spec_hl()
    }

    /// The machine with another register file.
    pub open spec fn with_registers(self, registers: Registers) -> Machine {
        Machine { registers, ..self }
    }

    /// The machine with another accumulator.
    pub open spec fn with_a(self, a: u8) -> Machine {
        self.with_registers(Registers { a, ..self.registers })
    }

    /// The machine with other flags.
    pub open spec fn with_flags(self, f: RegFlags) -> Machine {
        self.with_registers(Registers { f, ..self.registers })
    }

    /// The machine with another program counter.
    pub open spec fn with_pc(self, pc: u16) -> Machine {
        self.with_registers(Registers { pc, ..self.registers })
    }

    /// The machine with another stack pointer.
    pub open spec fn with_sp(self, sp: u16) -> Machine {
        self.with_registers(Registers { sp, ..self.registers })
    }

    /// The machine with another HL.
    pub open spec fn with_hl(self, hl: u16) -> Machine {
        self.with_registers(self.registers.poke16(Reg16::HL, hl))
    }

    /// The machine and a clean end.
    pub open spec fn done(self) -> Outcome {
        (self, Ok(()))
    }

    /// The machine unchanged and a failure.
    pub open spec fn fail(self, error: ExecError) -> Outcome {
        (self, Err(error))
    }

    /// The new machine where there is one; else this machine unchanged and
    /// the failure.
    pub open spec fn settle(self, result: Result<Machine, ExecError>) -> Outcome {
        match result {
            Ok(machine) => machine.done(),
            Err(error) => self.fail(error),
        }
    }

    /// The byte at `address`.
    pub open spec fn read(self, address: int) -> Result<u8, ExecError> {
        if self.memory.contains_key(address) {
            Ok(self.memory[address])
        } else {
            Err(ExecError::UnassignedAddress)
        }
    }

    /// The machine after `value` is stored at `address`.
    pub open spec fn write(self, address: int, value: u8) -> Result<Machine, ExecError> {
        if self.memory.contains_key(address) {
            Ok(Machine { memory: self.memory.insert(address, value), ..self })
        } else {
            Err(ExecError::UnassignedAddress)
        }
    }

    /// The little-endian word at `address`.
    pub open spec fn read_word(self, address: int) -> Result<u16, ExecError> {
        if self.memory.contains_key(address) && self.memory.contains_key(address + 1) {
            Ok(word_at(self.memory, address))
        } else {
            Err(ExecError::UnassignedAddress)
        }
    }

    /// The machine after `value` is stored little-endian at `address`.
    pub open spec fn write_word(self, address: int, value: u16) -> Result<Machine, ExecError> {
        if self.memory.contains_key(address) && self.memory.contains_key(address + 1) {
            Ok(Machine { memory: store_word(self.memory, address, value), ..self })
        } else {
            Err(ExecError::UnassignedAddress)
        }
    }

    /// The value of an 8-bit operand slot: a register, or the byte HL points at.
    #[verifier::opaque]
    pub open spec fn load8(self, reg: Reg8) -> Result<u8, ExecError> {
        match reg {
            Reg8::MHL => self.read(self.hl() as int),
            Reg8::Unknown => Err(ExecError::InvalidEncoding),
            _ => Ok(self.registers.peek8(reg).unwrap()),
        }
    }

    /// The machine after `value` is stored in an 8-bit operand slot.
    #[verifier::opaque]
    pub open spec fn store8(self, reg: Reg8, value: u8) -> Result<Machine, ExecError> {
        match reg {
            Reg8::MHL => self.write(self.hl() as int, value),
            Reg8::Unknown => Err(ExecError::InvalidEncoding),
            _ => Ok(self.with_registers(self.registers.poke8(reg, value))),
        }
    }

    /// The value of a register pair.
    #[verifier::opaque]
    pub open spec fn load16(self, reg: Reg16) -> Result<u16, ExecError> {
        match self.registers.peek16(reg) {
            Some(value) => Ok(value),
            None => Err(ExecError::InvalidEncoding),
        }
    }

    /// The machine after `value` is stored in a register pair.
    #[verifier::opaque]
    pub open spec fn store16(self, reg: Reg16, value: u16) -> Result<Machine, ExecError> {
        match reg {
            Reg16::Unknown => Err(ExecError::InvalidEncoding),
            _ => Ok(self.with_registers(self.registers.poke16(reg, value))),
        }
    }

    /// The machine after a result is stored in an operand slot and its flags
    /// are taken over.
    pub open spec fn commit8(self, reg: Reg8, result: (u8, RegFlags)) -> Result<
        Machine,
        ExecError,
    > {
        match self.store8(reg, result.0) {
            Ok(machine) => Ok(machine.with_flags(result.1)),
            Err(error) => Err(error),
        }
    }

    /// The machine after the byte at `address` is loaded into the accumulator.
    pub open spec fn load_a(self, address: int) -> Result<Machine, ExecError> {
        match self.read(address) {
            Ok(value) => Ok(self.with_a(value)),
            Err(error) => Err(error),
        }
    }

    /// The machine after the accumulator is stored at `address`.
    pub open spec fn store_a(self, address: int) -> Result<Machine, ExecError> {
        self.write(address, self.registers.a)
    }

    /// The machine after `value` is pushed: the stack pointer goes down by
    /// two, wrapping, and the word is stored where it then points.
    pub open spec fn push(self, value: u16) -> Result<Machine, ExecError> {
        let sp = wrap16(self.registers.sp - 2);
        match self.write_word(sp as int, value) {
            Ok(machine) => Ok(machine.with_sp(sp)),
            Err(error) => Err(error),
        }
    }

    /// The word on top of the stack and the machine after it is popped: the
    /// stack pointer goes up by two, wrapping.
    pub open spec fn pop(self) -> Result<(u16, Machine), ExecError> {
        match self.read_word(self.registers.sp as int) {
            Ok(value) => Ok((value, self.with_sp(wrap16(self.registers.sp + 2)))),
            Err(error) => Err(error),
        }
    }

    /// The machine after a jump by a signed offset from the program counter.
    /// A target outside the 16-bit range wraps and is reported.
    pub open spec fn jump_relative(self, offset: u8) -> Outcome {
        let target = self.registers.pc + signed_of(offset);
        (
            self.with_pc(wrap16(target)),
            if 0 <= target <= 0xFFFF {
                Ok(())
            } else {
                Err(ExecError::ProgramCounterOverflow)
            },
        )
    }

    /// The machine after a jump to `target`.
    pub open spec fn jump(self, target: u16) -> Outcome {
        self.with_pc(target).done()
    }

    /// The machine after a call of `target`: the program counter is pushed,
    /// then replaced.
    pub open spec fn call(self, target: u16) -> Outcome {
        self.settle(
            match self.push(self.registers.pc) {
                Ok(machine) => Ok(machine.with_pc(target)),
                Err(error) => Err(error),
            },
        )
    }

    /// The machine after a return: the program counter is popped.
    pub open spec fn ret(self) -> Outcome {
        self.settle(
            match self.pop() {
                Ok((target, machine)) => Ok(machine.with_pc(target)),
                Err(error) => Err(error),
            },
        )
    }

    /// What a conditional instruction does: it fails on the reserved
    /// condition, does `taken` where the flags meet the condition, and
    /// nothing where they do not.
    pub open spec fn when(self, condition: Conditional, taken: Outcome) -> Outcome {
        if condition == Conditional::Invalid {
            self.fail(ExecError::InvalidEncoding)
        } else if self.registers.f.meets(condition) {
            taken
        } else {
            self.done()
        }
    }

    /// The machine after the accumulator operation `operation` with operand
    /// `operand`.
    pub open spec fn accumulate(self, operation: Operation, operand: u8) -> Result<
        Machine,
        ExecError,
    > {
        match alu_spec(operation, self.registers.a, operand, self.registers.f) {
            Some((a, f)) => Ok(self.with_a(a).with_flags(f)),
            None => Err(ExecError::InvalidEncoding),
        }
    }

    /// The machine after a rotate or shift of an operand slot moved `moved.0`
    /// in and `moved.1` out; a failure where the direction was reserved.
    pub open spec fn commit_shift(self, reg: Reg8, moved: Option<(u8, bool)>) -> Result<
        Machine,
        ExecError,
    > {
        match moved {
            Some((value, carry)) => self.commit8(reg, (value, shifted_flags(value, carry))),
            None => Err(ExecError::InvalidEncoding),
        }
    }

    /// The machine after a rotate of the accumulator: as a rotate of a
    /// register, but the zero flag is cleared whatever the result.
    pub open spec fn rotate_a(self, moved: Option<(u8, bool)>) -> Result<Machine, ExecError> {
        match moved {
            Some((value, carry)) => Ok(
                self.with_a(value).with_flags(
                    RegFlags { z: false, n: false, h: false, c: carry },
                ),
            ),
            None => Err(ExecError::InvalidEncoding),
        }
    }

    /// What a load, a store or a stack transfer does. Other instructions are
    /// not its business and leave the machine alone.
    #[verifier::opaque]
    pub open spec fn transfer(self, instruction: Instruction) -> Outcome {
        let r = self.registers;
        match instruction {
            Instruction::LDmnnSP(nn) => self.settle(self.write_word(nn as int, r.sp)),
            Instruction::LDrrNN(rr, nn) => self.settle(self.store16(rr, nn)),
            Instruction::LDmrrA(rr) => self.settle(
                match self.load16(rr) {
                    Ok(address) => self.store_a(address as int),
                    Err(error) => Err(error),
                },
            ),
            Instruction::LDaMRR(rr) => self.settle(
                match self.load16(rr) {
                    Ok(address) => self.load_a(address as int),
                    Err(error) => Err(error),
                },
            ),
            Instruction::LDrN(reg, n) => self.settle(self.store8(reg, n)),
            Instruction::LDrR(to, from) => self.settle(
                match self.load8(from) {
                    Ok(value) => self.store8(to, value),
                    Err(error) => Err(error),
                },
            ),
            Instruction::LDImhlA => self.settle(
                match self.store_a(self.hl() as int) {
                    Ok(machine) => Ok(machine.with_hl(wrap16(self.hl() + 1))),
                    Err(error) => Err(error),
                },
            ),
            Instruction::LDIaMHL => self.settle(
                match self.load_a(self.hl() as int) {
                    Ok(machine) => Ok(machine.with_hl(wrap16(self.hl() + 1))),
                    Err(error) => Err(error),
                },
            ),
            Instruction::LDDmhlA => self.settle(
                match self.store_a(self.hl() as int) {
                    Ok(machine) => Ok(machine.with_hl(wrap16(self.hl() - 1))),
                    Err(error) => Err(error),
                },
            ),
            Instruction::LDDaMHL => self.settle(
                match self.load_a(self.hl() as int) {
                    Ok(machine) => Ok(machine.with_hl(wrap16(self.hl() - 1))),
                    Err(error) => Err(error),
                },
            ),
            Instruction::LDmzpPnA(n) => self.settle(self.store_a(0xFF00 + n)),
            Instruction::LDaMZPpN(n) => self.settle(self.load_a(0xFF00 + n)),
            Instruction::LDmcA => self.settle(self.store_a(0xFF00 + r.c)),
            Instruction::LDaMC => self.settle(self.load_a(0xFF00 + r.c)),
            Instruction::LDmnnA(nn) => self.settle(self.store_a(nn as int)),
            Instruction::LDaMNN(nn) => self.settle(self.load_a(nn as int)),
            Instruction::LDspHL => self.with_sp(self.hl()).done(),
            Instruction::LDhlSPpN(n) => {
                let (value, f) = add_sp_spec(r.sp, n);
                self.with_hl(value).with_flags(f).done()
            },
            Instruction::PUSHrr(rr) => self.settle(
                match self.load16(rr) {
                    Ok(value) => self.push(value),
                    Err(error) => Err(error),
                },
            ),
            Instruction::POPrr(rr) => self.settle(
                if rr == Reg16::Unknown {
                    Err(ExecError::InvalidEncoding)
                } else {
                    match self.pop() {
                        Ok((value, machine)) => machine.store16(rr, value),
                        Err(error) => Err(error),
                    }
                },
            ),
            _ => self.done(),
        }
    }

    /// What an arithmetic instruction does. Other instructions are not its
    /// business and leave the machine alone.
    #[verifier::opaque]
    pub open spec fn compute(self, instruction: Instruction) -> Outcome {
        let r = self.registers;
        match instruction {
            Instruction::ALUaR(operation, reg) => self.settle(
                match self.load8(reg) {
                    Ok(value) => self.accumulate(operation, value),
                    Err(error) => Err(error),
                },
            ),
            Instruction::ALUaN(operation, n) => self.settle(self.accumulate(operation, n)),
            Instruction::INCr(reg) => self.settle(
                match self.load8(reg) {
                    Ok(value) => self.commit8(reg, inc8_spec(value, r.f)),
                    Err(error) => Err(error),
                },
            ),
            Instruction::DECr(reg) => self.settle(
                match self.load8(reg) {
                    Ok(value) => self.commit8(reg, dec8_spec(value, r.f)),
                    Err(error) => Err(error),
                },
            ),
            Instruction::INCrr(rr) => self.settle(
                match self.load16(rr) {
                    Ok(value) => self.store16(rr, wrap16(value + 1)),
                    Err(error) => Err(error),
                },
            ),
            Instruction::DECrr(rr) => self.settle(
                match self.load16(rr) {
                    Ok(value) => self.store16(rr, wrap16(value - 1)),
                    Err(error) => Err(error),
                },
            ),
            Instruction::ADDhlRR(rr) => self.settle(
                match self.load16(rr) {
                    Ok(value) => {
                        let (sum, f) = add16_spec(self.hl(), value, r.f);
                        Ok(self.with_hl(sum).with_flags(f))
                    },
                    Err(error) => Err(error),
                },
            ),
            Instruction::ADDspN(n) => {
                let (value, f) = add_sp_spec(r.sp, n);
                self.with_sp(value).with_flags(f).done()
            },
            Instruction::DAA => {
                let (a, f) = daa_spec(r.a, r.f);
                self.with_a(a).with_flags(f).done()
            },
            Instruction::CPL => self.with_a(complement_spec(r.a)).with_flags(
                RegFlags { n: true, h: true, ..r.f },
            ).done(),
            Instruction::SCF => self.with_flags(RegFlags { n: false, h: false, c: true, ..r.f })
                .done(),
            Instruction::CCF => self.with_flags(
                RegFlags { n: false, h: false, c: !r.f.c, ..r.f },
            ).done(),
            _ => self.done(),
        }
    }

    /// What a rotate, a shift, a swap or a bit instruction does. Other
    /// instructions are not its business and leave the machine alone.
    #[verifier::opaque]
    pub open spec fn shuffle(self, instruction: Instruction) -> Outcome {
        let r = self.registers;
        match instruction {
            Instruction::RdCA(direction) => self.settle(
                self.rotate_a(rotate_spec(direction, true, r.a, r.f.c)),
            ),
            Instruction::RdA(direction) => self.settle(
                self.rotate_a(rotate_spec(direction, false, r.a, r.f.c)),
            ),
            Instruction::RdCr(direction, reg) => self.settle(
                match self.load8(reg) {
                    Ok(value) => self.commit_shift(
                        reg,
                        rotate_spec(direction, true, value, r.f.c),
                    ),
                    Err(error) => Err(error),
                },
            ),
            Instruction::RdR(direction, reg) => self.settle(
                match self.load8(reg) {
                    Ok(value) => self.commit_shift(
                        reg,
                        rotate_spec(direction, false, value, r.f.c),
                    ),
                    Err(error) => Err(error),
                },
            ),
            Instruction::SdAr(direction, reg) => self.settle(
                match self.load8(reg) {
                    Ok(value) => self.commit_shift(reg, shift_spec(direction, value)),
                    Err(error) => Err(error),
                },
            ),
            Instruction::SWAPr(reg) => self.settle(
                match self.load8(reg) {
                    Ok(value) => self.commit_shift(reg, Some((swap_spec(value), false))),
                    Err(error) => Err(error),
                },
            ),
            Instruction::SRLr(reg) => self.settle(
                match self.load8(reg) {
                    Ok(value) => self.commit_shift(reg, Some(srl_spec(value))),
                    Err(error) => Err(error),
                },
            ),
            Instruction::BITnR(index, reg) => self.settle(
                if index > 7 {
                    Err(ExecError::InvalidEncoding)
                } else {
                    match self.load8(reg) {
                        Ok(value) => Ok(
                            self.with_flags(
                                RegFlags { z: !bit_spec(value, index), n: false, h: true, ..r.f },
                            ),
                        ),
                        Err(error) => Err(error),
                    }
                },
            ),
            Instruction::RESnR(index, reg) => self.settle(
                if index > 7 {
                    Err(ExecError::InvalidEncoding)
                } else {
                    match self.load8(reg) {
                        Ok(value) => self.store8(reg, reset_bit_spec(value, index)),
                        Err(error) => Err(error),
                    }
                },
            ),
            Instruction::SETnR(index, reg) => self.settle(
                if index > 7 {
                    Err(ExecError::InvalidEncoding)
                } else {
                    match self.load8(reg) {
                        Ok(value) => self.store8(reg, set_bit_spec(value, index)),
                        Err(error) => Err(error),
                    }
                },
            ),
            _ => self.done(),
        }
    }

    /// What a jump, a call, a return or a control instruction does, and how
    /// the three instructions that stand for a failed decoding end. Other
    /// instructions are not its business and leave the machine alone.
    #[verifier::opaque]
    pub open spec fn control(self, instruction: Instruction) -> Outcome {
        let r = self.registers;
        match instruction {
            Instruction::NOP => self.done(),
            Instruction::STOP => Machine { halted: true, ..self }.done(),
            Instruction::HALT => Machine { halted: true, ..self }.done(),
            Instruction::DI => Machine { interrupts_enabled: false, ..self }.done(),
            Instruction::EI => Machine { interrupts_enabled: true, ..self }.done(),
            Instruction::Unknown => self.fail(ExecError::UnknownOpcode),
            Instruction::Invalid => self.fail(ExecError::InvalidEncoding),
            Instruction::Unassigned => self.fail(ExecError::UnassignedOpcode),
            Instruction::JRe(offset) => self.jump_relative(offset),
            Instruction::JRcE(condition, offset) => self.when(
                condition,
                self.jump_relative(offset),
            ),
            Instruction::JPnn(nn) => self.jump(nn),
            Instruction::JPcNN(condition, nn) => self.when(condition, self.jump(nn)),
            Instruction::JPhl => self.jump(self.hl()),
            Instruction::CALLnn(nn) => self.call(nn),
            Instruction::CALLcNN(condition, nn) => self.when(condition, self.call(nn)),
            Instruction::RSTn(n) => self.call(n as u16),
            Instruction::RET => self.ret(),
            Instruction::RETc(condition) => self.when(condition, self.ret()),
            Instruction::RETI => {
                let (machine, result) = self.ret();
                if result is Ok {
                    Machine { interrupts_enabled: true, ..machine }.done()
                } else {
                    (machine, result)
                }
            },
            _ => self.done(),
        }
    }

    /// What an instruction does to the machine, the program counter standing
    /// past the instruction.
    pub open spec fn execute(self, instruction: Instruction) -> Outcome {
        match instruction {
            Instruction::LDrrNN(_, _)
            | Instruction::LDrN(_, _)
            | Instruction::LDrR(_, _)
            | Instruction::LDspHL
            | Instruction::LDhlSPpN(_)
            | Instruction::LDmrrA(_)
            | Instruction::LDaMRR(_)
            | Instruction::LDImhlA
            | Instruction::LDIaMHL
            | Instruction::LDDmhlA
            | Instruction::LDDaMHL
            | Instruction::LDmnnSP(_)
            | Instruction::LDmzpPnA(_)
            | Instruction::LDaMZPpN(_)
            | Instruction::LDmcA
            | Instruction::LDaMC
            | Instruction::LDmnnA(_)
            | Instruction::LDaMNN(_)
            | Instruction::PUSHrr(_)
            | Instruction::POPrr(_) => self.transfer(instruction),
            Instruction::ALUaR(_, _)
            | Instruction::ALUaN(_, _)
            | Instruction::INCr(_)
            | Instruction::DECr(_)
            | Instruction::INCrr(_)
            | Instruction::DECrr(_)
            | Instruction::ADDhlRR(_)
            | Instruction::ADDspN(_)
            | Instruction::DAA
            | Instruction::CPL
            | Instruction::SCF
            | Instruction::CCF => self.compute(instruction),
            Instruction::RdCA(_)
            | Instruction::RdA(_)
            | Instruction::RdCr(_, _)
            | Instruction::RdR(_, _)
            | Instruction::SdAr(_, _)
            | Instruction::SWAPr(_)
            | Instruction::SRLr(_)
            | Instruction::BITnR(_, _)
            | Instruction::RESnR(_, _)
            | Instruction::SETnR(_, _) => self.shuffle(instruction),
            _ => self.control(instruction),
        }
    }

    /// One cycle: the instruction at the program counter is decoded, the
    /// counter moves past it, wrapping at the top of the address space, and
    /// the instruction runs. The result is the instruction's own; whether the
    /// counter wrapped on its way past the instruction is told by `wraps`.
    pub open spec fn step(self) -> Outcome {
        let pc = self.registers.pc;
        self.with_pc(advance(pc, length(self.memory, pc))).execute(decode(self.memory, pc))
    }

    /// Whether the counter wraps on its way past the instruction it points
    /// at: whether the instruction ends beyond the last address.
    pub open spec fn wraps(self) -> bool {
        self.registers.pc + length(self.memory, self.registers.pc) > 0xFFFF
    }
}

/// The conditions that a cycle raises, in the order to report them: what the
/// instruction failed with, if it failed, then the overflow of the program
/// counter, if the counter wrapped past the instruction or a jump of the
/// instruction left the 16-bit range. The overflow is raised once.
pub open spec fn conditions_of(outcome: Result<(), ExecError>, wrapped: bool) -> Seq<ExecError> {
    match outcome {
        Ok(_) => if wrapped {
            seq![ExecError::ProgramCounterOverflow]
        } else {
            Seq::empty()
        },
        Err(ExecError::ProgramCounterOverflow) => seq![ExecError::ProgramCounterOverflow],
        Err(error) => if wrapped {
            seq![error, ExecError::ProgramCounterOverflow]
        } else {
            seq![error]
        },
    }
}

} // verus!
