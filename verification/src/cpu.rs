//! The execution engine: the processor itself, one instruction at a time and
//! one fetch-decode-execute cycle at a time.
//!
//! [`CPU::execute`] and [`CPU::step`] are proved to move the processor as the
//! model in [`crate::machine`] moves.

use vstd::prelude::*;
use crate::alu::{
    add16, add_sp, alu, bit, complement, daa, dec8, inc8, reset_bit, rotate, set_bit, shift, srl,
    swap,
};
use crate::aluops::Operation;
use crate::bus::{blank_memory, MemoryBus};
use crate::conditionals::Conditional;
use crate::flags::RegFlags;
use crate::instructions::{decode, length, Instruction};
use crate::machine::{conditions_of, wrap16, ExecError, Machine};
use crate::registers::{Reg16, Reg8, Registers};

verus! {

/// The word after `value`, wrapping at the top.
fn next16(value: u16) -> (r: u16)
    ensures
        r == wrap16(value + 1),
{
    value.wrapping_add(1)
}

/// The word before `value`, wrapping at the bottom.
fn previous16(value: u16) -> (r: u16)
    ensures
        r == wrap16(value - 1),
{
    value.wrapping_sub(1)
}

/// The processor: memory, registers, and the two marks that instructions set.
pub struct CPU {
    pub memory: MemoryBus,
    pub registers: Registers,
    /// Set by `EI` and `RETI`, cleared by `DI`. Interrupts are not modelled,
    /// so nothing reads it.
    pub interrupts_enabled: bool,
    /// Set by `HALT` and `STOP`.
    pub halted: bool,
}

/// What one cycle did.
pub struct Cycle {
    /// Where the instruction was read.
    pub address: u16,
    pub instruction: Instruction,
    /// The instruction's mnemonic.
    pub name: String,
    /// How the instruction itself ended.
    pub outcome: Result<(), ExecError>,
    /// Whether the program counter wrapped on its way past the instruction,
    /// whatever the instruction then did.
    pub wrapped: bool,
}

impl Cycle {
    /// The conditions that the cycle raised, in the order to report them: the
    /// failure of the instruction, if it failed, then the overflow of the
    /// program counter, if the counter wrapped past the instruction or a
    /// jump left the 16-bit range.
    pub fn conditions(&self) -> (raised: Vec<ExecError>)
        ensures
            raised@ == conditions_of(self.outcome, self.wrapped),
    {
        let mut raised: Vec<ExecError> = Vec::new();
        let mut overflowed = self.wrapped;
        match self.outcome {
            Ok(_) => {},
            Err(ExecError::ProgramCounterOverflow) => {
                overflowed = true;
            },
            Err(error) => {
                raised.push(error);
            },
        }
        if overflowed {
            raised.push(ExecError::ProgramCounterOverflow);
        }
        assert(raised@ =~= conditions_of(self.outcome, self.wrapped));
        raised
    }
}

impl View for CPU {
    type V = Machine;

    open spec fn view(&self) -> Machine {
        Machine {
            registers: self.registers,
            memory: self.memory@,
            interrupts_enabled: self.interrupts_enabled,
            halted: self.halted,
        }
    }
}

impl Default for CPU {
    /// A processor with blank memory, zeroed registers, and both marks clear.
    fn default() -> (cpu: CPU)
        ensures
            cpu@ == (Machine {
                registers: Registers::zeroed(),
                memory: blank_memory(),
                interrupts_enabled: false,
                halted: false,
            }),
    {
        CPU {
            memory: MemoryBus::default(),
            registers: Registers::default(),
            interrupts_enabled: false,
            halted: false,
        }
    }
}

impl CPU {
    fn read(&self, address: u16) -> (r: Result<u8, ExecError>)
        ensures
            r == self@.read(address as int),
    {
        match self.memory.get_byte(address) {
            Ok(value) => Ok(value),
            Err(_) => Err(ExecError::UnassignedAddress),
        }
    }

    fn write(&mut self, address: u16, value: u8) -> (r: Result<(), ExecError>)
        ensures
            (final(self)@, r) == old(self)@.settle(old(self)@.write(address as int, value)),
    {
        match self.memory.write_byte(address, value) {
            Ok(()) => Ok(()),
            Err(_) => Err(ExecError::UnassignedAddress),
        }
    }

    fn read_word(&self, address: u16) -> (r: Result<u16, ExecError>)
        ensures
            r == self@.read_word(address as int),
    {
        match self.memory.get_2bytes(address) {
            Ok(value) => Ok(value),
            Err(_) => Err(ExecError::UnassignedAddress),
        }
    }

    fn write_word(&mut self, address: u16, value: u16) -> (r: Result<(), ExecError>)
        ensures
            (final(self)@, r) == old(self)@.settle(old(self)@.write_word(address as int, value)),
    {
        match self.memory.write_2bytes(address, value) {
            Ok(()) => Ok(()),
            Err(_) => Err(ExecError::UnassignedAddress),
        }
    }

    fn load8(&self, reg: Reg8) -> (r: Result<u8, ExecError>)
        ensures
            r == self@.load8(reg),
    {
        reveal(Machine::load8);
        match reg {
            Reg8::MHL => self.read(self.registers.hl()),
            _ => match self.registers.read8(reg) {
                Some(value) => Ok(value),
                None => Err(ExecError::InvalidEncoding),
            },
        }
    }

    fn store8(&mut self, reg: Reg8, value: u8) -> (r: Result<(), ExecError>)
        ensures
            (final(self)@, r) == old(self)@.settle(old(self)@.store8(reg, value)),
    {
        reveal(Machine::store8);
        match reg {
            Reg8::MHL => self.write(self.registers.hl(), value),
            _ => {
                if self.registers.write8(reg, value) {
                    Ok(())
                } else {
                    Err(ExecError::InvalidEncoding)
                }
            },
        }
    }

    fn load16(&self, reg: Reg16) -> (r: Result<u16, ExecError>)
        ensures
            r == self@.load16(reg),
    {
        reveal(Machine::load16);
        match self.registers.read16(reg) {
            Some(value) => Ok(value),
            None => Err(ExecError::InvalidEncoding),
        }
    }

    fn store16(&mut self, reg: Reg16, value: u16) -> (r: Result<(), ExecError>)
        ensures
            (final(self)@, r) == old(self)@.settle(old(self)@.store16(reg, value)),
    {
        reveal(Machine::store16);
        if self.registers.write16(reg, value) {
            Ok(())
        } else {
            Err(ExecError::InvalidEncoding)
        }
    }

    fn commit8(&mut self, reg: Reg8, result: (u8, RegFlags)) -> (r: Result<(), ExecError>)
        ensures
            (final(self)@, r) == old(self)@.settle(old(self)@.commit8(reg, result)),
    {
        match self.store8(reg, result.0) {
            Ok(()) => {
                self.registers.f = result.1;
                Ok(())
            },
            Err(error) => Err(error),
        }
    }

    fn commit_shift(&mut self, reg: Reg8, moved: Option<(u8, bool)>) -> (r: Result<
        (),
        ExecError,
    >)
        ensures
            (final(self)@, r) == old(self)@.settle(old(self)@.commit_shift(reg, moved)),
    {
        match moved {
            Some((value, carry)) => self.commit8(
                reg,
                (value, RegFlags { z: value == 0, n: false, h: false, c: carry }),
            ),
            None => Err(ExecError::InvalidEncoding),
        }
    }

    fn rotate_a(&mut self, moved: Option<(u8, bool)>) -> (r: Result<(), ExecError>)
        ensures
            (final(self)@, r) == old(self)@.settle(old(self)@.rotate_a(moved)),
    {
        match moved {
            Some((value, carry)) => {
                self.registers.a = value;
                self.registers.f = RegFlags { z: false, n: false, h: false, c: carry };
                Ok(())
            },
            None => Err(ExecError::InvalidEncoding),
        }
    }

    fn load_a(&mut self, address: u16) -> (r: Result<(), ExecError>)
        ensures
            (final(self)@, r) == old(self)@.settle(old(self)@.load_a(address as int)),
    {
        match self.read(address) {
            Ok(value) => {
                self.registers.a = value;
                Ok(())
            },
            Err(error) => Err(error),
        }
    }

    fn store_a(&mut self, address: u16) -> (r: Result<(), ExecError>)
        ensures
            (final(self)@, r) == old(self)@.settle(old(self)@.store_a(address as int)),
    {
        self.write(address, self.registers.a)
    }

    fn set_hl(&mut self, value: u16)
        ensures
            final(self)@ == old(self)@.with_hl(value),
    {
        let _ = self.registers.write16(Reg16::HL, value);
    }

    fn accumulate(&mut self, operation: Operation, operand: u8) -> (r: Result<
        (),
        ExecError,
    >)
        ensures
            (final(self)@, r) == old(self)@.settle(old(self)@.accumulate(operation, operand)),
    {
        match alu(operation, self.registers.a, operand, self.registers.f) {
            Some((a, f)) => {
                self.registers.a = a;
                self.registers.f = f;
                Ok(())
            },
            None => Err(ExecError::InvalidEncoding),
        }
    }

    fn push(&mut self, value: u16) -> (r: Result<(), ExecError>)
        ensures
            (final(self)@, r) == old(self)@.settle(old(self)@.push(value)),
    {
        let sp: u16 = self.registers.sp.wrapping_sub(2);
        match self.write_word(sp, value) {
            Ok(()) => {
                self.registers.sp = sp;
                Ok(())
            },
            Err(error) => Err(error),
        }
    }

    fn jump_relative(&mut self, offset: u8) -> (r: Result<(), ExecError>)
        ensures
            (final(self)@, r) == old(self)@.jump_relative(offset),
    {
        let pc: u16 = self.registers.pc;
        if offset < 128 {
            let forward: u16 = offset as u16;
            self.registers.pc = pc.wrapping_add(forward);
            if forward <= u16::MAX - pc {
                Ok(())
            } else {
                Err(ExecError::ProgramCounterOverflow)
            }
        } else {
            let back: u16 = 256 - offset as u16;
            self.registers.pc = pc.wrapping_sub(back);
            if back <= pc {
                Ok(())
            } else {
                Err(ExecError::ProgramCounterOverflow)
            }
        }
    }

    fn call(&mut self, target: u16) -> (r: Result<(), ExecError>)
        ensures
            (final(self)@, r) == old(self)@.call(target),
    {
        match self.push(self.registers.pc) {
            Ok(()) => {
                self.registers.pc = target;
                Ok(())
            },
            Err(error) => Err(error),
        }
    }

    fn ret(&mut self) -> (r: Result<(), ExecError>)
        ensures
            (final(self)@, r) == old(self)@.ret(),
    {
        match self.read_word(self.registers.sp) {
            Ok(target) => {
                self.registers.sp = self.registers.sp.wrapping_add(2);
                self.registers.pc = target;
                Ok(())
            },
            Err(error) => Err(error),
        }
    }

    /// Whether a conditional instruction acts: `Err` on the reserved
    /// condition, else whether the flags meet the condition.
    fn taken(&self, condition: Conditional) -> (r: Result<bool, ExecError>)
        ensures
            condition == Conditional::Invalid ==> r == Err::<bool, ExecError>(
                ExecError::InvalidEncoding,
            ),
            condition != Conditional::Invalid ==> r == Ok::<bool, ExecError>(
                self.registers.f.meets(condition),
            ),
    {
        match condition {
            Conditional::Invalid => Err(ExecError::InvalidEncoding),
            _ => Ok(self.registers.f.is_condition_met(&condition)),
        }
    }

    /// Loads between registers and from immediates.
    fn transfer_direct(&mut self, instruction: &Instruction) -> (r: Result<(), ExecError>)
        requires
            *instruction is LDrrNN || *instruction is LDrN || *instruction is LDrR
                || *instruction is LDspHL || *instruction is LDhlSPpN,
        ensures
            (final(self)@, r) == old(self)@.transfer(*instruction),
    {
        reveal(Machine::transfer);
        match *instruction {
            Instruction::LDrrNN(rr, nn) => self.store16(rr, nn),
            Instruction::LDrN(reg, n) => self.store8(reg, n),
            Instruction::LDrR(to, from) => match self.load8(from) {
                Ok(value) => self.store8(to, value),
                Err(error) => Err(error),
            },
            Instruction::LDspHL => {
                self.registers.sp = self.registers.hl();
                Ok(())
            },
            Instruction::LDhlSPpN(n) => {
                let (value, f) = add_sp(self.registers.sp, n);
                self.set_hl(value);
                self.registers.f = f;
                Ok(())
            },
            // not reached: the caller hands over no other instruction
            _ => Ok(()),
        }
    }

    /// Loads and stores of the accumulator through a register pair.
    fn transfer_through_pair(&mut self, instruction: &Instruction) -> (r: Result<(), ExecError>)
        requires
            *instruction is LDmrrA || *instruction is LDaMRR || *instruction is LDImhlA
                || *instruction is LDIaMHL || *instruction is LDDmhlA || *instruction is LDDaMHL,
        ensures
            (final(self)@, r) == old(self)@.transfer(*instruction),
    {
        reveal(Machine::transfer);
        match *instruction {
            Instruction::LDmrrA(rr) => match self.load16(rr) {
                Ok(address) => self.store_a(address),
                Err(error) => Err(error),
            },
            Instruction::LDaMRR(rr) => match self.load16(rr) {
                Ok(address) => self.load_a(address),
                Err(error) => Err(error),
            },
            Instruction::LDImhlA => {
                let hl: u16 = self.registers.hl();
                match self.store_a(hl) {
                    Ok(()) => {
                        self.set_hl(next16(hl));
                        Ok(())
                    },
                    Err(error) => Err(error),
                }
            },
            Instruction::LDIaMHL => {
                let hl: u16 = self.registers.hl();
                match self.load_a(hl) {
                    Ok(()) => {
                        self.set_hl(next16(hl));
                        Ok(())
                    },
                    Err(error) => Err(error),
                }
            },
            Instruction::LDDmhlA => {
                let hl: u16 = self.registers.hl();
                match self.store_a(hl) {
                    Ok(()) => {
                        self.set_hl(previous16(hl));
                        Ok(())
                    },
                    Err(error) => Err(error),
                }
            },
            Instruction::LDDaMHL => {
                let hl: u16 = self.registers.hl();
                match self.load_a(hl) {
                    Ok(()) => {
                        self.set_hl(previous16(hl));
                        Ok(())
                    },
                    Err(error) => Err(error),
                }
            },
            // not reached: the caller hands over no other instruction
            _ => Ok(()),
        }
    }

    /// Loads and stores at an absolute or high-page address.
    fn transfer_absolute(&mut self, instruction: &Instruction) -> (r: Result<(), ExecError>)
        requires
            *instruction is LDmnnSP || *instruction is LDmzpPnA || *instruction is LDaMZPpN
                || *instruction is LDmcA || *instruction is LDaMC || *instruction is LDmnnA
                || *instruction is LDaMNN,
        ensures
            (final(self)@, r) == old(self)@.transfer(*instruction),
    {
        reveal(Machine::transfer);
        match *instruction {
            Instruction::LDmnnSP(nn) => self.write_word(nn, self.registers.sp),
            Instruction::LDmzpPnA(n) => self.store_a(0xFF00 + n as u16),
            Instruction::LDaMZPpN(n) => self.load_a(0xFF00 + n as u16),
            Instruction::LDmcA => self.store_a(0xFF00 + self.registers.c as u16),
            Instruction::LDaMC => self.load_a(0xFF00 + self.registers.c as u16),
            Instruction::LDmnnA(nn) => self.store_a(nn),
            Instruction::LDaMNN(nn) => self.load_a(nn),
            // not reached: the caller hands over no other instruction
            _ => Ok(()),
        }
    }

    /// Pushes and pops.
    fn transfer_stack(&mut self, instruction: &Instruction) -> (r: Result<(), ExecError>)
        requires
            *instruction is PUSHrr || *instruction is POPrr,
        ensures
            (final(self)@, r) == old(self)@.transfer(*instruction),
    {
        reveal(Machine::transfer);
        match *instruction {
            Instruction::PUSHrr(rr) => match self.load16(rr) {
                Ok(value) => self.push(value),
                Err(error) => Err(error),
            },
            Instruction::POPrr(rr) => {
                proof {
                    reveal(Machine::store16);
                }
                if rr == Reg16::Unknown {
                    return Err(ExecError::InvalidEncoding);
                }
                match self.read_word(self.registers.sp) {
                    Ok(value) => {
                        self.registers.sp = self.registers.sp.wrapping_add(2);
                        self.store16(rr, value)
                    },
                    Err(error) => Err(error),
                }
            },
            // not reached: the caller hands over no other instruction
            _ => Ok(()),
        }
    }

    /// Accumulator operations and 8-bit increments and decrements.
    fn compute_accumulator(&mut self, instruction: &Instruction) -> (r: Result<(), ExecError>)
        requires
            *instruction is ALUaR || *instruction is ALUaN || *instruction is INCr
                || *instruction is DECr,
        ensures
            (final(self)@, r) == old(self)@.compute(*instruction),
    {
        reveal(Machine::compute);
        match *instruction {
            Instruction::ALUaR(operation, reg) => match self.load8(reg) {
                Ok(value) => self.accumulate(operation, value),
                Err(error) => Err(error),
            },
            Instruction::ALUaN(operation, n) => self.accumulate(operation, n),
            Instruction::INCr(reg) => match self.load8(reg) {
                Ok(value) => self.commit8(reg, inc8(value, self.registers.f)),
                Err(error) => Err(error),
            },
            Instruction::DECr(reg) => match self.load8(reg) {
                Ok(value) => self.commit8(reg, dec8(value, self.registers.f)),
                Err(error) => Err(error),
            },
            // not reached: the caller hands over no other instruction
            _ => Ok(()),
        }
    }

    /// 16-bit arithmetic.
    fn compute_wide(&mut self, instruction: &Instruction) -> (r: Result<(), ExecError>)
        requires
            *instruction is INCrr || *instruction is DECrr || *instruction is ADDhlRR
                || *instruction is ADDspN,
        ensures
            (final(self)@, r) == old(self)@.compute(*instruction),
    {
        reveal(Machine::compute);
        match *instruction {
            Instruction::INCrr(rr) => match self.load16(rr) {
                Ok(value) => self.store16(rr, next16(value)),
                Err(error) => Err(error),
            },
            Instruction::DECrr(rr) => match self.load16(rr) {
                Ok(value) => self.store16(rr, previous16(value)),
                Err(error) => Err(error),
            },
            Instruction::ADDhlRR(rr) => match self.load16(rr) {
                Ok(value) => {
                    let (sum, f) = add16(self.registers.hl(), value, self.registers.f);
                    self.set_hl(sum);
                    self.registers.f = f;
                    Ok(())
                },
                Err(error) => Err(error),
            },
            Instruction::ADDspN(n) => {
                let (value, f) = add_sp(self.registers.sp, n);
                self.registers.sp = value;
                self.registers.f = f;
                Ok(())
            },
            // not reached: the caller hands over no other instruction
            _ => Ok(()),
        }
    }

    /// Adjustments of the accumulator and of the carry flag.
    fn compute_adjust(&mut self, instruction: &Instruction) -> (r: Result<(), ExecError>)
        requires
            *instruction is DAA || *instruction is CPL || *instruction is SCF
                || *instruction is CCF,
        ensures
            (final(self)@, r) == old(self)@.compute(*instruction),
    {
        reveal(Machine::compute);
        match *instruction {
            Instruction::DAA => {
                let (a, f) = daa(self.registers.a, self.registers.f);
                self.registers.a = a;
                self.registers.f = f;
                Ok(())
            },
            Instruction::CPL => {
                self.registers.a = complement(self.registers.a);
                self.registers.f.n = true;
                self.registers.f.h = true;
                Ok(())
            },
            Instruction::SCF => {
                self.registers.f.n = false;
                self.registers.f.h = false;
                self.registers.f.c = true;
                Ok(())
            },
            Instruction::CCF => {
                self.registers.f.n = false;
                self.registers.f.h = false;
                self.registers.f.c = !self.registers.f.c;
                Ok(())
            },
            // not reached: the caller hands over no other instruction
            _ => Ok(()),
        }
    }

    /// Rotates and arithmetic shifts.
    fn shuffle_rotate(&mut self, instruction: &Instruction) -> (r: Result<(), ExecError>)
        requires
            *instruction is RdCA || *instruction is RdA || *instruction is RdCr
                || *instruction is RdR || *instruction is SdAr,
        ensures
            (final(self)@, r) == old(self)@.shuffle(*instruction),
    {
        reveal(Machine::shuffle);
        match *instruction {
            Instruction::RdCA(direction) => {
                let moved = rotate(direction, true, self.registers.a, self.registers.f.c);
                self.rotate_a(moved)
            },
            Instruction::RdA(direction) => {
                let moved = rotate(direction, false, self.registers.a, self.registers.f.c);
                self.rotate_a(moved)
            },
            Instruction::RdCr(direction, reg) => match self.load8(reg) {
                Ok(value) => self.commit_shift(
                    reg,
                    rotate(direction, true, value, self.registers.f.c),
                ),
                Err(error) => Err(error),
            },
            Instruction::RdR(direction, reg) => match self.load8(reg) {
                Ok(value) => self.commit_shift(
                    reg,
                    rotate(direction, false, value, self.registers.f.c),
                ),
                Err(error) => Err(error),
            },
            Instruction::SdAr(direction, reg) => match self.load8(reg) {
                Ok(value) => self.commit_shift(reg, shift(direction, value)),
                Err(error) => Err(error),
            },
            // not reached: the caller hands over no other instruction
            _ => Ok(()),
        }
    }

    /// Swaps, logical shifts and single-bit instructions.
    fn shuffle_bits(&mut self, instruction: &Instruction) -> (r: Result<(), ExecError>)
        requires
            *instruction is SWAPr || *instruction is SRLr || *instruction is BITnR
                || *instruction is RESnR || *instruction is SETnR,
        ensures
            (final(self)@, r) == old(self)@.shuffle(*instruction),
    {
        reveal(Machine::shuffle);
        match *instruction {
            Instruction::SWAPr(reg) => match self.load8(reg) {
                Ok(value) => self.commit_shift(reg, Some((swap(value), false))),
                Err(error) => Err(error),
            },
            Instruction::SRLr(reg) => match self.load8(reg) {
                Ok(value) => self.commit_shift(reg, Some(srl(value))),
                Err(error) => Err(error),
            },
            Instruction::BITnR(index, reg) => {
                if index > 7 {
                    return Err(ExecError::InvalidEncoding);
                }
                match self.load8(reg) {
                    Ok(value) => {
                        self.registers.f.z = !bit(value, index);
                        self.registers.f.n = false;
                        self.registers.f.h = true;
                        Ok(())
                    },
                    Err(error) => Err(error),
                }
            },
            Instruction::RESnR(index, reg) => {
                if index > 7 {
                    return Err(ExecError::InvalidEncoding);
                }
                match self.load8(reg) {
                    Ok(value) => self.store8(reg, reset_bit(value, index)),
                    Err(error) => Err(error),
                }
            },
            Instruction::SETnR(index, reg) => {
                if index > 7 {
                    return Err(ExecError::InvalidEncoding);
                }
                match self.load8(reg) {
                    Ok(value) => self.store8(reg, set_bit(value, index)),
                    Err(error) => Err(error),
                }
            },
            // not reached: the caller hands over no other instruction
            _ => Ok(()),
        }
    }

    fn control(&mut self, instruction: &Instruction) -> (r: Result<(), ExecError>)
        ensures
            (final(self)@, r) == old(self)@.control(*instruction),
    {
        reveal(Machine::control);
        match *instruction {
            Instruction::NOP => Ok(()),
            Instruction::STOP | Instruction::HALT => {
                self.halted = true;
                Ok(())
            },
            Instruction::DI => {
                self.interrupts_enabled = false;
                Ok(())
            },
            Instruction::EI => {
                self.interrupts_enabled = true;
                Ok(())
            },
            Instruction::Unknown => Err(ExecError::UnknownOpcode),
            Instruction::Invalid => Err(ExecError::InvalidEncoding),
            Instruction::Unassigned => Err(ExecError::UnassignedOpcode),
            Instruction::JRe(offset) => self.jump_relative(offset),
            Instruction::JRcE(condition, offset) => match self.taken(condition) {
                Ok(true) => self.jump_relative(offset),
                Ok(false) => Ok(()),
                Err(error) => Err(error),
            },
            Instruction::JPnn(nn) => {
                self.registers.pc = nn;
                Ok(())
            },
            Instruction::JPcNN(condition, nn) => match self.taken(condition) {
                Ok(true) => {
                    self.registers.pc = nn;
                    Ok(())
                },
                Ok(false) => Ok(()),
                Err(error) => Err(error),
            },
            Instruction::JPhl => {
                self.registers.pc = self.registers.hl();
                Ok(())
            },
            Instruction::CALLnn(nn) => self.call(nn),
            Instruction::CALLcNN(condition, nn) => match self.taken(condition) {
                Ok(true) => self.call(nn),
                Ok(false) => Ok(()),
                Err(error) => Err(error),
            },
            Instruction::RSTn(n) => self.call(n as u16),
            Instruction::RET => self.ret(),
            Instruction::RETc(condition) => match self.taken(condition) {
                Ok(true) => self.ret(),
                Ok(false) => Ok(()),
                Err(error) => Err(error),
            },
            Instruction::RETI => match self.ret() {
                Ok(()) => {
                    self.interrupts_enabled = true;
                    Ok(())
                },
                Err(error) => Err(error),
            },
            _ => Ok(()),
        }
    }

    /// Runs one decoded instruction. The program counter must already stand
    /// past it, as `step` leaves it. On `Ok` the instruction took effect; on
    /// `Err` nothing changed, except that `ProgramCounterOverflow` keeps the
    /// wrapped counter.
    pub fn execute(&mut self, instruction: &Instruction) -> (r: Result<(), ExecError>)
        ensures
            (final(self)@, r) == old(self)@.execute(*instruction),
    {
        match *instruction {
            Instruction::LDrrNN(_, _)
            | Instruction::LDrN(_, _)
            | Instruction::LDrR(_, _)
            | Instruction::LDspHL
            | Instruction::LDhlSPpN(_) => self.transfer_direct(instruction),
            Instruction::LDmrrA(_)
            | Instruction::LDaMRR(_)
            | Instruction::LDImhlA
            | Instruction::LDIaMHL
            | Instruction::LDDmhlA
            | Instruction::LDDaMHL => self.transfer_through_pair(instruction),
            Instruction::LDmnnSP(_)
            | Instruction::LDmzpPnA(_)
            | Instruction::LDaMZPpN(_)
            | Instruction::LDmcA
            | Instruction::LDaMC
            | Instruction::LDmnnA(_)
            | Instruction::LDaMNN(_) => self.transfer_absolute(instruction),
            Instruction::PUSHrr(_)
            | Instruction::POPrr(_) => self.transfer_stack(instruction),
            Instruction::ALUaR(_, _)
            | Instruction::ALUaN(_, _)
            | Instruction::INCr(_)
            | Instruction::DECr(_) => self.compute_accumulator(instruction),
            Instruction::INCrr(_)
            | Instruction::DECrr(_)
            | Instruction::ADDhlRR(_)
            | Instruction::ADDspN(_) => self.compute_wide(instruction),
            Instruction::DAA
            | Instruction::CPL
            | Instruction::SCF
            | Instruction::CCF => self.compute_adjust(instruction),
            Instruction::RdCA(_)
            | Instruction::RdA(_)
            | Instruction::RdCr(_, _)
            | Instruction::RdR(_, _)
            | Instruction::SdAr(_, _) => self.shuffle_rotate(instruction),
            Instruction::SWAPr(_)
            | Instruction::SRLr(_)
            | Instruction::BITnR(_, _)
            | Instruction::RESnR(_, _)
            | Instruction::SETnR(_, _) => self.shuffle_bits(instruction),
            _ => self.control(instruction),
        }
    }

    /// Runs one cycle: decodes the instruction at the program counter, moves
    /// the counter past it, and executes it. The report names the
    /// instruction and where it was read, and tells two things apart: how the
    /// instruction itself ended, and whether the counter wrapped past the
    /// last address on its way past the instruction. The second is told
    /// whether the instruction failed or not.
    pub fn step(&mut self) -> (cycle: Cycle)
        ensures
            cycle.address == old(self).registers.pc,
            cycle.instruction == decode(old(self)@.memory, old(self).registers.pc),
            cycle.name@ == cycle.instruction.mnemonic_text(),
            (final(self)@, cycle.outcome) == old(self)@.step(),
            cycle.wrapped == (old(self).registers.pc + length(
                old(self)@.memory,
                old(self).registers.pc,
            ) > 0xFFFF),
    {
        let address: u16 = self.registers.pc;
        let mut pc: u16 = address;
        let (instruction, name) = Instruction::fetch(&self.memory, &mut pc);
        self.registers.pc = pc;
        let wrapped = pc < address;
        let outcome = self.execute(&instruction);
        Cycle { address, instruction, name, outcome, wrapped }
    }
}

} // verus!
