//! Instruction-level model of the Sharp LR35902, the processor of the Game Boy:
//! a segmented memory bus, an opcode decoder and an execution engine, each
//! with a contract that Verus proves.

pub mod alu;
pub mod aluops;
pub mod bus;
pub mod common;
pub mod conditionals;
pub mod cpu;
pub mod diagnostics;
pub mod direction;
pub mod flags;
pub mod instructions;
pub mod machine;
pub mod mnemonic;
pub mod registers;
pub mod rom;
pub mod theorems;
