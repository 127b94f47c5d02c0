//! What holds of every machine and every instruction: how instructions can
//! fail, what a failure leaves behind, and what the decoder guarantees the
//! engine.

use vstd::prelude::*;
use crate::bus::lemma_word_write_then_read;
use crate::instructions::{
    advance, decode, lemma_decode_is_encodable, length, readable, Instruction,
};
use crate::machine::{conditions_of, wrap16, ExecError, Machine};
use crate::registers::{Reg16, Reg8};

verus! {

/// A word pushed and then popped comes back, and the stack pointer stands
/// where it stood, wherever it stood.
pub proof fn lemma_push_then_pop(machine: Machine, value: u16)
    requires
        machine.push(value) is Ok,
    ensures
        machine.push(value).unwrap().pop() == Ok::<(u16, Machine), ExecError>(
            (value, machine.push(value).unwrap().with_sp(machine.registers.sp)),
        ),
{
    lemma_word_write_then_read(
        machine.memory,
        wrap16(machine.registers.sp - 2) as int,
        value,
    );
}

/// Whether a failure is one that an instruction which moves no program
/// counter may end in: an access to a gap, or, for an instruction that no
/// opcode encodes, an invalid encoding.
spec fn plain_failure(result: Result<(), ExecError>, instruction: Instruction) -> bool {
    match result {
        Ok(_) => true,
        Err(error) => error == ExecError::UnassignedAddress || (error
            == ExecError::InvalidEncoding && !instruction.encodable()),
    }
}

/// An access to a register or to an operand slot fails only on a reserved
/// selector, as an invalid encoding, or in a gap of memory.
proof fn lemma_access_errors()
    ensures
        forall|m: Machine, reg: Reg8| #[trigger]
            m.load8(reg) is Err ==> m.load8(reg) == Err::<u8, ExecError>(
                ExecError::UnassignedAddress,
            ) || (reg == Reg8::Unknown && m.load8(reg) == Err::<u8, ExecError>(
                ExecError::InvalidEncoding,
            )),
        forall|m: Machine, reg: Reg8, v: u8| #[trigger]
            m.store8(reg, v) is Err ==> m.store8(reg, v) == Err::<Machine, ExecError>(
                ExecError::UnassignedAddress,
            ) || (reg == Reg8::Unknown && m.store8(reg, v) == Err::<Machine, ExecError>(
                ExecError::InvalidEncoding,
            )),
        forall|m: Machine, reg: Reg16| #[trigger]
            m.load16(reg) is Err ==> reg == Reg16::Unknown && m.load16(reg) == Err::<
                u16,
                ExecError,
            >(ExecError::InvalidEncoding),
        forall|m: Machine, reg: Reg16, v: u16| #[trigger]
            m.store16(reg, v) is Err ==> reg == Reg16::Unknown && m.store16(reg, v) == Err::<
                Machine,
                ExecError,
            >(ExecError::InvalidEncoding),
{
    reveal(Machine::load8);
    reveal(Machine::store8);
    reveal(Machine::load16);
    reveal(Machine::store16);
}

/// How a load between registers or from an immediate can fail.
proof fn lemma_transfer_failure_direct(machine: Machine, instruction: Instruction)
    requires
        instruction is LDrrNN || instruction is LDrN || instruction is LDrR
            || instruction is LDspHL || instruction is LDhlSPpN,
    ensures
        machine.transfer(instruction).1 is Err ==> machine.transfer(instruction).0 == machine,
        plain_failure(machine.transfer(instruction).1, instruction),
{
    reveal(Machine::transfer);
    lemma_access_errors();
}

/// How a load or store through a register pair can fail.
proof fn lemma_transfer_failure_through_pair(machine: Machine, instruction: Instruction)
    requires
        instruction is LDmrrA || instruction is LDaMRR || instruction is LDImhlA
            || instruction is LDIaMHL || instruction is LDDmhlA || instruction is LDDaMHL,
    ensures
        machine.transfer(instruction).1 is Err ==> machine.transfer(instruction).0 == machine,
        plain_failure(machine.transfer(instruction).1, instruction),
{
    reveal(Machine::transfer);
    lemma_access_errors();
}

/// How a load or store at an absolute or high-page address can fail.
proof fn lemma_transfer_failure_absolute(machine: Machine, instruction: Instruction)
    requires
        instruction is LDmnnSP || instruction is LDmzpPnA || instruction is LDaMZPpN
            || instruction is LDmcA || instruction is LDaMC || instruction is LDmnnA
            || instruction is LDaMNN,
    ensures
        machine.transfer(instruction).1 is Err ==> machine.transfer(instruction).0 == machine,
        plain_failure(machine.transfer(instruction).1, instruction),
{
    reveal(Machine::transfer);
    lemma_access_errors();
}

/// How a push or a pop can fail.
proof fn lemma_transfer_failure_stack(machine: Machine, instruction: Instruction)
    requires
        instruction is PUSHrr || instruction is POPrr,
    ensures
        machine.transfer(instruction).1 is Err ==> machine.transfer(instruction).0 == machine,
        plain_failure(machine.transfer(instruction).1, instruction),
{
    reveal(Machine::transfer);
    lemma_access_errors();
}

/// How a load, a store or a stack transfer can fail.
proof fn lemma_transfer_failure(machine: Machine, instruction: Instruction)
    ensures
        machine.transfer(instruction).1 is Err ==> machine.transfer(instruction).0 == machine,
        plain_failure(machine.transfer(instruction).1, instruction),
{
    match instruction {
        Instruction::LDrrNN(..)
        | Instruction::LDrN(..)
        | Instruction::LDrR(..)
        | Instruction::LDspHL
        | Instruction::LDhlSPpN(..) => lemma_transfer_failure_direct(machine, instruction),
        Instruction::LDmrrA(..)
        | Instruction::LDaMRR(..)
        | Instruction::LDImhlA
        | Instruction::LDIaMHL
        | Instruction::LDDmhlA
        | Instruction::LDDaMHL => lemma_transfer_failure_through_pair(machine, instruction),
        Instruction::LDmnnSP(..)
        | Instruction::LDmzpPnA(..)
        | Instruction::LDaMZPpN(..)
        | Instruction::LDmcA
        | Instruction::LDaMC
        | Instruction::LDmnnA(..)
        | Instruction::LDaMNN(..) => lemma_transfer_failure_absolute(machine, instruction),
        Instruction::PUSHrr(..)
        | Instruction::POPrr(..) => lemma_transfer_failure_stack(machine, instruction),
        _ => {
            reveal(Machine::transfer);
        },
    }
}

/// How an arithmetic instruction can fail.
proof fn lemma_compute_failure(machine: Machine, instruction: Instruction)
    ensures
        machine.compute(instruction).1 is Err ==> machine.compute(instruction).0 == machine,
        plain_failure(machine.compute(instruction).1, instruction),
{
    reveal(Machine::compute);
    lemma_access_errors();
}

/// How a rotate or an arithmetic shift can fail.
proof fn lemma_shuffle_failure_rotate(machine: Machine, instruction: Instruction)
    requires
        instruction is RdCA || instruction is RdA || instruction is RdCr || instruction is RdR
            || instruction is SdAr,
    ensures
        machine.shuffle(instruction).1 is Err ==> machine.shuffle(instruction).0 == machine,
        plain_failure(machine.shuffle(instruction).1, instruction),
{
    reveal(Machine::shuffle);
    lemma_access_errors();
}

/// How a swap, a logical shift or a bit instruction can fail.
proof fn lemma_shuffle_failure_bits(machine: Machine, instruction: Instruction)
    requires
        instruction is SWAPr || instruction is SRLr || instruction is BITnR
            || instruction is RESnR || instruction is SETnR,
    ensures
        machine.shuffle(instruction).1 is Err ==> machine.shuffle(instruction).0 == machine,
        plain_failure(machine.shuffle(instruction).1, instruction),
{
    reveal(Machine::shuffle);
    lemma_access_errors();
}

/// How a rotate, a shift, a swap or a bit instruction can fail.
proof fn lemma_shuffle_failure(machine: Machine, instruction: Instruction)
    ensures
        machine.shuffle(instruction).1 is Err ==> machine.shuffle(instruction).0 == machine,
        plain_failure(machine.shuffle(instruction).1, instruction),
{
    match instruction {
        Instruction::RdCA(..)
        | Instruction::RdA(..)
        | Instruction::RdCr(..)
        | Instruction::RdR(..)
        | Instruction::SdAr(..) => lemma_shuffle_failure_rotate(machine, instruction),
        Instruction::SWAPr(..)
        | Instruction::SRLr(..)
        | Instruction::BITnR(..)
        | Instruction::RESnR(..)
        | Instruction::SETnR(..) => lemma_shuffle_failure_bits(machine, instruction),
        _ => {
            reveal(Machine::shuffle);
        },
    }
}

/// How a jump, a call, a return or a control instruction can fail.
proof fn lemma_control_failure(machine: Machine, instruction: Instruction)
    ensures
        match machine.control(instruction).1 {
            Ok(_) => true,
            Err(ExecError::ProgramCounterOverflow) => {
                &&& instruction is JRe || instruction is JRcE
                &&& machine.control(instruction).0 == machine.with_pc(
                    machine.control(instruction).0.registers.pc,
                )
            },
            Err(error) => {
                &&& machine.control(instruction).0 == machine
                &&& error != ExecError::UnassignedAddress ==> !instruction.encodable()
            },
        },
{
    reveal(Machine::control);
}

/// An instruction that fails leaves the machine as it found it, unless the
/// failure is a program counter overflow. Only a relative jump can overflow
/// the program counter, and then nothing but the program counter changes.
pub proof fn lemma_failure_changes_nothing(machine: Machine, instruction: Instruction)
    requires
        machine.execute(instruction).1 is Err,
    ensures
        machine.execute(instruction).1 != Err::<(), ExecError>(ExecError::ProgramCounterOverflow)
            ==> machine.execute(instruction).0 == machine,
        machine.execute(instruction).1 == Err::<(), ExecError>(ExecError::ProgramCounterOverflow)
            ==> {
            &&& instruction is JRe || instruction is JRcE
            &&& machine.execute(instruction).0 == machine.with_pc(
                machine.execute(instruction).0.registers.pc,
            )
        },
{
    lemma_transfer_failure(machine, instruction);
    lemma_compute_failure(machine, instruction);
    lemma_shuffle_failure(machine, instruction);
    lemma_control_failure(machine, instruction);
}

/// An instruction that opcodes can encode never fails for its encoding: it
/// can only fail for the memory it touches, or overflow the program counter.
pub proof fn lemma_encodable_never_invalid(machine: Machine, instruction: Instruction)
    requires
        instruction.encodable(),
        machine.execute(instruction).1 is Err,
    ensures
        machine.execute(instruction).1 == Err::<(), ExecError>(ExecError::UnassignedAddress)
            || machine.execute(instruction).1 == Err::<(), ExecError>(
            ExecError::ProgramCounterOverflow,
        ),
{
    lemma_transfer_failure(machine, instruction);
    lemma_compute_failure(machine, instruction);
    lemma_shuffle_failure(machine, instruction);
    lemma_control_failure(machine, instruction);
}

/// How the instruction of a cycle can end, whatever memory holds: with an
/// unassigned opcode exactly when the instruction cannot be read in full,
/// with an invalid encoding exactly when the opcode is one of those without
/// a meaning, and never with an unknown opcode.
pub proof fn lemma_step_conditions(machine: Machine)
    ensures
        machine.step().1 == Err::<(), ExecError>(ExecError::UnassignedOpcode) <==> !readable(
            machine.memory,
            machine.registers.pc,
        ),
        machine.step().1 == Err::<(), ExecError>(ExecError::InvalidEncoding) <==> decode(
            machine.memory,
            machine.registers.pc,
        ) == Instruction::Invalid,
        machine.step().1 != Err::<(), ExecError>(ExecError::UnknownOpcode),
{
    let pc = machine.registers.pc;
    let instruction = decode(machine.memory, pc);
    let fetched = machine.with_pc(advance(pc, length(machine.memory, pc)));
    lemma_decode_is_encodable(machine.memory, pc);
    if instruction.encodable() {
        if fetched.execute(instruction).1 is Err {
            lemma_encodable_never_invalid(fetched, instruction);
        }
    } else {
        reveal(Machine::control);
    }
}

/// A cycle whose instruction fails without overflowing the program counter
/// has moved the counter past the instruction and changed nothing else.
pub proof fn lemma_failed_cycle_only_advances(machine: Machine)
    requires
        machine.step().1 is Err,
        machine.step().1 != Err::<(), ExecError>(ExecError::ProgramCounterOverflow),
    ensures
        machine.step().0 == machine.with_pc(
            advance(machine.registers.pc, length(machine.memory, machine.registers.pc)),
        ),
{
    let pc = machine.registers.pc;
    lemma_failure_changes_nothing(
        machine.with_pc(advance(pc, length(machine.memory, pc))),
        decode(machine.memory, pc),
    );
}

/// The overflow of the program counter is among the conditions of a cycle
/// exactly when the counter wrapped past the instruction or a jump of the
/// instruction left the 16-bit range, whether the instruction failed or not.
/// For every instruction but a relative jump that is exactly when the address
/// of the instruction plus its length exceeds `0xFFFF`. What the instruction
/// failed with is reported first, and the overflow once.
pub proof fn lemma_overflow_is_reported(machine: Machine)
    ensures
        conditions_of(machine.step().1, machine.wraps()).contains(
            ExecError::ProgramCounterOverflow,
        ) <==> machine.wraps() || machine.step().1 == Err::<(), ExecError>(
            ExecError::ProgramCounterOverflow,
        ),
        !(decode(machine.memory, machine.registers.pc) is JRe) && !(decode(
            machine.memory,
            machine.registers.pc,
        ) is JRcE) ==> (conditions_of(machine.step().1, machine.wraps()).contains(
            ExecError::ProgramCounterOverflow,
        ) <==> machine.registers.pc + length(machine.memory, machine.registers.pc) > 0xFFFF),
        machine.step().1 is Err ==> conditions_of(machine.step().1, machine.wraps())[0]
            == machine.step().1->Err_0,
        conditions_of(machine.step().1, machine.wraps()).len() <= 2,
        conditions_of(machine.step().1, machine.wraps()).len() == 2 ==> conditions_of(
            machine.step().1,
            machine.wraps(),
        )[0] != ExecError::ProgramCounterOverflow,
{
    let pc = machine.registers.pc;
    let raised = conditions_of(machine.step().1, machine.wraps());
    if machine.step().1 is Err {
        lemma_failure_changes_nothing(
            machine.with_pc(advance(pc, length(machine.memory, pc))),
            decode(machine.memory, pc),
        );
    }
    if raised.len() == 1 {
        assert(raised.contains(ExecError::ProgramCounterOverflow) <==> raised[0]
            == ExecError::ProgramCounterOverflow);
    }
    if raised.len() == 2 {
        assert(raised[1] == ExecError::ProgramCounterOverflow);
    }
}

/// A store to a register or to an operand slot leaves the set of addresses
/// that memory answers at as it was.
proof fn lemma_stores_keep_addresses()
    ensures
        forall|m: Machine, reg: Reg8, v: u8| #[trigger]
            m.store8(reg, v) is Ok ==> m.store8(reg, v).unwrap().memory.dom() == m.memory.dom(),
        forall|m: Machine, reg: Reg16, v: u16| #[trigger]
            m.store16(reg, v) is Ok ==> m.store16(reg, v).unwrap().memory == m.memory,
{
    reveal(Machine::store8);
    reveal(Machine::store16);
    assert forall|m: Machine, reg: Reg8, v: u8| #[trigger] m.store8(reg, v) is Ok implies m.store8(
        reg,
        v,
    ).unwrap().memory.dom() == m.memory.dom() by {
        assert(m.store8(reg, v).unwrap().memory.dom() =~= m.memory.dom());
    }
}

/// Whatever an instruction does, memory answers afterwards at the addresses
/// it answered at before, and at no others.
pub proof fn lemma_execute_keeps_addresses(machine: Machine, instruction: Instruction)
    ensures
        machine.execute(instruction).0.memory.dom() == machine.memory.dom(),
{
    lemma_stores_keep_addresses();
    let after = machine.execute(instruction).0;
    match instruction {
        Instruction::LDmnnSP(..)
        | Instruction::LDrrNN(..)
        | Instruction::LDmrrA(..)
        | Instruction::LDaMRR(..)
        | Instruction::LDrN(..)
        | Instruction::LDrR(..)
        | Instruction::LDImhlA
        | Instruction::LDIaMHL
        | Instruction::LDDmhlA
        | Instruction::LDDaMHL
        | Instruction::LDmzpPnA(..)
        | Instruction::LDaMZPpN(..)
        | Instruction::LDmcA
        | Instruction::LDaMC
        | Instruction::LDmnnA(..)
        | Instruction::LDaMNN(..)
        | Instruction::LDspHL
        | Instruction::LDhlSPpN(..)
        | Instruction::PUSHrr(..)
        | Instruction::POPrr(..) => {
            reveal(Machine::transfer);
            assert(after.memory.dom() =~= machine.memory.dom());
        },
        Instruction::ALUaR(..)
        | Instruction::ALUaN(..)
        | Instruction::INCr(..)
        | Instruction::DECr(..)
        | Instruction::INCrr(..)
        | Instruction::DECrr(..)
        | Instruction::ADDhlRR(..)
        | Instruction::ADDspN(..)
        | Instruction::DAA
        | Instruction::CPL
        | Instruction::SCF
        | Instruction::CCF => {
            reveal(Machine::compute);
            assert(after.memory.dom() =~= machine.memory.dom());
        },
        Instruction::RdCA(..)
        | Instruction::RdA(..)
        | Instruction::RdCr(..)
        | Instruction::RdR(..)
        | Instruction::SdAr(..)
        | Instruction::SWAPr(..)
        | Instruction::SRLr(..)
        | Instruction::BITnR(..)
        | Instruction::RESnR(..)
        | Instruction::SETnR(..) => {
            reveal(Machine::shuffle);
            assert(after.memory.dom() =~= machine.memory.dom());
        },
        _ => {
            reveal(Machine::control);
            assert(after.memory.dom() =~= machine.memory.dom());
        },
    }
}

/// Whatever a cycle does, memory answers afterwards at the addresses it
/// answered at before, and at no others.
pub proof fn lemma_step_keeps_addresses(machine: Machine)
    ensures
        machine.step().0.memory.dom() == machine.memory.dom(),
{
    let pc = machine.registers.pc;
    lemma_execute_keeps_addresses(
        machine.with_pc(advance(pc, length(machine.memory, pc))),
        decode(machine.memory, pc),
    );
}

} // verus!
