use rustyboi::aluops::Operation;
use rustyboi::bus::MemoryBus;
use rustyboi::conditionals::Conditional;
use rustyboi::direction::Direction;
use rustyboi::instructions::Instruction;
use rustyboi::registers::{Reg16, Reg8};

/// The mnemonic and the length of every first opcode byte, the operand bytes
/// being `0x34 0x12`. The prefix has no row of its own.
fn plain_table() -> Vec<(&'static str, u16)> {
    vec![
        ("NOP", 1),
        ("LD BC, 0x1234", 3),
        ("LD (BC), A", 1),
        ("INC BC", 1),
        ("INC B", 1),
        ("DEC B", 1),
        ("LD B, 0x34", 2),
        ("RdCA Left", 1),
        ("LD (0x1234), SP", 3),
        ("ADD HL, BC", 1),
        ("LD A, (BC)", 1),
        ("DEC BC", 1),
        ("INC C", 1),
        ("DEC C", 1),
        ("LD C, 0x34", 2),
        ("RdCA Right", 1),
        ("STOP", 1),
        ("LD DE, 0x1234", 3),
        ("LD (DE), A", 1),
        ("INC DE", 1),
        ("INC D", 1),
        ("DEC D", 1),
        ("LD D, 0x34", 2),
        ("RdA Left", 1),
        ("JR 0x34", 2),
        ("ADD HL, DE", 1),
        ("LD A, (DE)", 1),
        ("DEC DE", 1),
        ("INC E", 1),
        ("DEC E", 1),
        ("LD E, 0x34", 2),
        ("RdA Right", 1),
        ("JR NZ, 0x34", 2),
        ("LD HL, 0x1234", 3),
        ("LDI (HL), A", 1),
        ("INC HL", 1),
        ("INC H", 1),
        ("DEC H", 1),
        ("LD H, 0x34", 2),
        ("DAA", 1),
        ("JR Z, 0x34", 2),
        ("ADD HL, HL", 1),
        ("LDI A, (HL)", 1),
        ("DEC HL", 1),
        ("INC L", 1),
        ("DEC L", 1),
        ("LD L, 0x34", 2),
        ("CPL", 1),
        ("JR NC, 0x34", 2),
        ("LD SP, 0x1234", 3),
        ("LDD (HL), A", 1),
        ("INC SP", 1),
        ("INC (HL)", 1),
        ("DEC (HL)", 1),
        ("LD (HL), 0x34", 2),
        ("SCF", 1),
        ("JR C, 0x34", 2),
        ("ADD HL, SP", 1),
        ("LDD A, (HL)", 1),
        ("DEC SP", 1),
        ("INC A", 1),
        ("DEC A", 1),
        ("LD A, 0x34", 2),
        ("CCF", 1),
        ("LD B, B", 1),
        ("LD B, C", 1),
        ("LD B, D", 1),
        ("LD B, E", 1),
        ("LD B, H", 1),
        ("LD B, L", 1),
        ("LD B, (HL)", 1),
        ("LD B, A", 1),
        ("LD C, B", 1),
        ("LD C, C", 1),
        ("LD C, D", 1),
        ("LD C, E", 1),
        ("LD C, H", 1),
        ("LD C, L", 1),
        ("LD C, (HL)", 1),
        ("LD C, A", 1),
        ("LD D, B", 1),
        ("LD D, C", 1),
        ("LD D, D", 1),
        ("LD D, E", 1),
        ("LD D, H", 1),
        ("LD D, L", 1),
        ("LD D, (HL)", 1),
        ("LD D, A", 1),
        ("LD E, B", 1),
        ("LD E, C", 1),
        ("LD E, D", 1),
        ("LD E, E", 1),
        ("LD E, H", 1),
        ("LD E, L", 1),
        ("LD E, (HL)", 1),
        ("LD E, A", 1),
        ("LD H, B", 1),
        ("LD H, C", 1),
        ("LD H, D", 1),
        ("LD H, E", 1),
        ("LD H, H", 1),
        ("LD H, L", 1),
        ("LD H, (HL)", 1),
        ("LD H, A", 1),
        ("LD L, B", 1),
        ("LD L, C", 1),
        ("LD L, D", 1),
        ("LD L, E", 1),
        ("LD L, H", 1),
        ("LD L, L", 1),
        ("LD L, (HL)", 1),
        ("LD L, A", 1),
        ("LD (HL), B", 1),
        ("LD (HL), C", 1),
        ("LD (HL), D", 1),
        ("LD (HL), E", 1),
        ("LD (HL), H", 1),
        ("LD (HL), L", 1),
        ("HALT", 1),
        ("LD (HL), A", 1),
        ("LD A, B", 1),
        ("LD A, C", 1),
        ("LD A, D", 1),
        ("LD A, E", 1),
        ("LD A, H", 1),
        ("LD A, L", 1),
        ("LD A, (HL)", 1),
        ("LD A, A", 1),
        ("ADD A, B", 1),
        ("ADD A, C", 1),
        ("ADD A, D", 1),
        ("ADD A, E", 1),
        ("ADD A, H", 1),
        ("ADD A, L", 1),
        ("ADD A, (HL)", 1),
        ("ADD A, A", 1),
        ("ADC A, B", 1),
        ("ADC A, C", 1),
        ("ADC A, D", 1),
        ("ADC A, E", 1),
        ("ADC A, H", 1),
        ("ADC A, L", 1),
        ("ADC A, (HL)", 1),
        ("ADC A, A", 1),
        ("SUB A, B", 1),
        ("SUB A, C", 1),
        ("SUB A, D", 1),
        ("SUB A, E", 1),
        ("SUB A, H", 1),
        ("SUB A, L", 1),
        ("SUB A, (HL)", 1),
        ("SUB A, A", 1),
        ("SBC A, B", 1),
        ("SBC A, C", 1),
        ("SBC A, D", 1),
        ("SBC A, E", 1),
        ("SBC A, H", 1),
        ("SBC A, L", 1),
        ("SBC A, (HL)", 1),
        ("SBC A, A", 1),
        ("AND A, B", 1),
        ("AND A, C", 1),
        ("AND A, D", 1),
        ("AND A, E", 1),
        ("AND A, H", 1),
        ("AND A, L", 1),
        ("AND A, (HL)", 1),
        ("AND A, A", 1),
        ("XOR A, B", 1),
        ("XOR A, C", 1),
        ("XOR A, D", 1),
        ("XOR A, E", 1),
        ("XOR A, H", 1),
        ("XOR A, L", 1),
        ("XOR A, (HL)", 1),
        ("XOR A, A", 1),
        ("OR A, B", 1),
        ("OR A, C", 1),
        ("OR A, D", 1),
        ("OR A, E", 1),
        ("OR A, H", 1),
        ("OR A, L", 1),
        ("OR A, (HL)", 1),
        ("OR A, A", 1),
        ("CP A, B", 1),
        ("CP A, C", 1),
        ("CP A, D", 1),
        ("CP A, E", 1),
        ("CP A, H", 1),
        ("CP A, L", 1),
        ("CP A, (HL)", 1),
        ("CP A, A", 1),
        ("RET NZ", 1),
        ("POP BC", 1),
        ("JP NZ, 0x1234", 3),
        ("JP 0x1234", 3),
        ("CALL NZ, 0x1234", 3),
        ("PUSH BC", 1),
        ("ADD A, 0x34", 2),
        ("RST 0x00", 1),
        ("RET Z", 1),
        ("RET", 1),
        ("JP Z, 0x1234", 3),
        ("", 2),
        ("CALL Z, 0x1234", 3),
        ("CALL 0x1234", 3),
        ("ADC A, 0x34", 2),
        ("RST 0x08", 1),
        ("RET NC", 1),
        ("POP DE", 1),
        ("JP NC, 0x1234", 3),
        ("Invalid", 1),
        ("CALL NC, 0x1234", 3),
        ("PUSH DE", 1),
        ("SUB A, 0x34", 2),
        ("RST 0x10", 1),
        ("RET C", 1),
        ("RETI", 1),
        ("JP C, 0x1234", 3),
        ("Invalid", 1),
        ("CALL C, 0x1234", 3),
        ("PUSH DE", 1),
        ("SBC A, 0x34", 2),
        ("RST 0x18", 1),
        ("LD (0xFF00+0x34), A", 2),
        ("POP HL", 1),
        ("LD (0xFF00+C), A", 1),
        ("Invalid", 1),
        ("CALL NZ, 0x1234", 3),
        ("PUSH HL", 1),
        ("AND A, 0x34", 2),
        ("RST 0x20", 1),
        ("ADD SP, 0x34", 2),
        ("JP HL", 1),
        ("LD (0x1234), A", 3),
        ("Invalid", 1),
        ("CALL Z, 0x1234", 3),
        ("PUSH HL", 1),
        ("XOR A, 0x34", 2),
        ("RST 0x28", 1),
        ("LD A, (0xFF00+0x34)", 2),
        ("POP AF", 1),
        ("LD A, (0xFF00+C)", 1),
        ("DI", 1),
        ("CALL NC, 0x1234", 3),
        ("PUSH AF", 1),
        ("OR A, 0x34", 2),
        ("RST 0x30", 1),
        ("LD HL, SP+0x34", 2),
        ("LD SP, HL", 1),
        ("LD A, (0x1234)", 3),
        ("EI", 1),
        ("CALL C, 0x1234", 3),
        ("PUSH AF", 1),
        ("CP A, 0x34", 2),
        ("RST 0x38", 1),
    ]
}

/// The mnemonic of every second opcode byte.
fn prefixed_table() -> Vec<&'static str> {
    vec![
        "RdCr Left, B",
        "RdCr Left, C",
        "RdCr Left, D",
        "RdCr Left, E",
        "RdCr Left, H",
        "RdCr Left, L",
        "RdCr Left, (HL)",
        "RdCr Left, A",
        "RdCr Right, B",
        "RdCr Right, C",
        "RdCr Right, D",
        "RdCr Right, E",
        "RdCr Right, H",
        "RdCr Right, L",
        "RdCr Right, (HL)",
        "RdCr Right, A",
        "RdR Left, B",
        "RdR Left, C",
        "RdR Left, D",
        "RdR Left, E",
        "RdR Left, H",
        "RdR Left, L",
        "RdR Left, (HL)",
        "RdR Left, A",
        "RdR Right, B",
        "RdR Right, C",
        "RdR Right, D",
        "RdR Right, E",
        "RdR Right, H",
        "RdR Right, L",
        "RdR Right, (HL)",
        "RdR Right, A",
        "SdAr Left, B",
        "SdAr Left, C",
        "SdAr Left, D",
        "SdAr Left, E",
        "SdAr Left, H",
        "SdAr Left, L",
        "SdAr Left, (HL)",
        "SdAr Left, A",
        "SdAr Right, B",
        "SdAr Right, C",
        "SdAr Right, D",
        "SdAr Right, E",
        "SdAr Right, H",
        "SdAr Right, L",
        "SdAr Right, (HL)",
        "SdAr Right, A",
        "SWAP B",
        "SWAP C",
        "SWAP D",
        "SWAP E",
        "SWAP H",
        "SWAP L",
        "SWAP (HL)",
        "SWAP A",
        "SRL B",
        "SRL C",
        "SRL D",
        "SRL E",
        "SRL H",
        "SRL L",
        "SRL (HL)",
        "SRL A",
        "BIT 0x00, B",
        "BIT 0x00, C",
        "BIT 0x00, D",
        "BIT 0x00, E",
        "BIT 0x00, H",
        "BIT 0x00, L",
        "BIT 0x00, (HL)",
        "BIT 0x00, A",
        "BIT 0x01, B",
        "BIT 0x01, C",
        "BIT 0x01, D",
        "BIT 0x01, E",
        "BIT 0x01, H",
        "BIT 0x01, L",
        "BIT 0x01, (HL)",
        "BIT 0x01, A",
        "BIT 0x02, B",
        "BIT 0x02, C",
        "BIT 0x02, D",
        "BIT 0x02, E",
        "BIT 0x02, H",
        "BIT 0x02, L",
        "BIT 0x02, (HL)",
        "BIT 0x02, A",
        "BIT 0x03, B",
        "BIT 0x03, C",
        "BIT 0x03, D",
        "BIT 0x03, E",
        "BIT 0x03, H",
        "BIT 0x03, L",
        "BIT 0x03, (HL)",
        "BIT 0x03, A",
        "BIT 0x04, B",
        "BIT 0x04, C",
        "BIT 0x04, D",
        "BIT 0x04, E",
        "BIT 0x04, H",
        "BIT 0x04, L",
        "BIT 0x04, (HL)",
        "BIT 0x04, A",
        "BIT 0x05, B",
        "BIT 0x05, C",
        "BIT 0x05, D",
        "BIT 0x05, E",
        "BIT 0x05, H",
        "BIT 0x05, L",
        "BIT 0x05, (HL)",
        "BIT 0x05, A",
        "BIT 0x06, B",
        "BIT 0x06, C",
        "BIT 0x06, D",
        "BIT 0x06, E",
        "BIT 0x06, H",
        "BIT 0x06, L",
        "BIT 0x06, (HL)",
        "BIT 0x06, A",
        "BIT 0x07, B",
        "BIT 0x07, C",
        "BIT 0x07, D",
        "BIT 0x07, E",
        "BIT 0x07, H",
        "BIT 0x07, L",
        "BIT 0x07, (HL)",
        "BIT 0x07, A",
        "RES 0x00, B",
        "RES 0x00, C",
        "RES 0x00, D",
        "RES 0x00, E",
        "RES 0x00, H",
        "RES 0x00, L",
        "RES 0x00, (HL)",
        "RES 0x00, A",
        "RES 0x01, B",
        "RES 0x01, C",
        "RES 0x01, D",
        "RES 0x01, E",
        "RES 0x01, H",
        "RES 0x01, L",
        "RES 0x01, (HL)",
        "RES 0x01, A",
        "RES 0x02, B",
        "RES 0x02, C",
        "RES 0x02, D",
        "RES 0x02, E",
        "RES 0x02, H",
        "RES 0x02, L",
        "RES 0x02, (HL)",
        "RES 0x02, A",
        "RES 0x03, B",
        "RES 0x03, C",
        "RES 0x03, D",
        "RES 0x03, E",
        "RES 0x03, H",
        "RES 0x03, L",
        "RES 0x03, (HL)",
        "RES 0x03, A",
        "RES 0x04, B",
        "RES 0x04, C",
        "RES 0x04, D",
        "RES 0x04, E",
        "RES 0x04, H",
        "RES 0x04, L",
        "RES 0x04, (HL)",
        "RES 0x04, A",
        "RES 0x05, B",
        "RES 0x05, C",
        "RES 0x05, D",
        "RES 0x05, E",
        "RES 0x05, H",
        "RES 0x05, L",
        "RES 0x05, (HL)",
        "RES 0x05, A",
        "RES 0x06, B",
        "RES 0x06, C",
        "RES 0x06, D",
        "RES 0x06, E",
        "RES 0x06, H",
        "RES 0x06, L",
        "RES 0x06, (HL)",
        "RES 0x06, A",
        "RES 0x07, B",
        "RES 0x07, C",
        "RES 0x07, D",
        "RES 0x07, E",
        "RES 0x07, H",
        "RES 0x07, L",
        "RES 0x07, (HL)",
        "RES 0x07, A",
        "SET 0x00, B",
        "SET 0x00, C",
        "SET 0x00, D",
        "SET 0x00, E",
        "SET 0x00, H",
        "SET 0x00, L",
        "SET 0x00, (HL)",
        "SET 0x00, A",
        "SET 0x01, B",
        "SET 0x01, C",
        "SET 0x01, D",
        "SET 0x01, E",
        "SET 0x01, H",
        "SET 0x01, L",
        "SET 0x01, (HL)",
        "SET 0x01, A",
        "SET 0x02, B",
        "SET 0x02, C",
        "SET 0x02, D",
        "SET 0x02, E",
        "SET 0x02, H",
        "SET 0x02, L",
        "SET 0x02, (HL)",
        "SET 0x02, A",
        "SET 0x03, B",
        "SET 0x03, C",
        "SET 0x03, D",
        "SET 0x03, E",
        "SET 0x03, H",
        "SET 0x03, L",
        "SET 0x03, (HL)",
        "SET 0x03, A",
        "SET 0x04, B",
        "SET 0x04, C",
        "SET 0x04, D",
        "SET 0x04, E",
        "SET 0x04, H",
        "SET 0x04, L",
        "SET 0x04, (HL)",
        "SET 0x04, A",
        "SET 0x05, B",
        "SET 0x05, C",
        "SET 0x05, D",
        "SET 0x05, E",
        "SET 0x05, H",
        "SET 0x05, L",
        "SET 0x05, (HL)",
        "SET 0x05, A",
        "SET 0x06, B",
        "SET 0x06, C",
        "SET 0x06, D",
        "SET 0x06, E",
        "SET 0x06, H",
        "SET 0x06, L",
        "SET 0x06, (HL)",
        "SET 0x06, A",
        "SET 0x07, B",
        "SET 0x07, C",
        "SET 0x07, D",
        "SET 0x07, E",
        "SET 0x07, H",
        "SET 0x07, L",
        "SET 0x07, (HL)",
        "SET 0x07, A",
    ]
}

fn bus_with(at: u16, bytes: &[u8]) -> MemoryBus {
    let mut bus = MemoryBus::default();
    let mut address: u16 = at;
    for byte in bytes {
        bus.write_byte(address, *byte).unwrap();
        address = address.wrapping_add(1);
    }
    bus
}

fn decode_at(at: u16, bytes: &[u8]) -> (Instruction, String, u16) {
    let bus = bus_with(at, bytes);
    let mut pc: u16 = at;
    let (instruction, name) = Instruction::fetch(&bus, &mut pc);
    (instruction, name, pc)
}

#[test]
fn every_plain_opcode_decodes_as_the_table_says() {
    let table = plain_table();
    assert_eq!(table.len(), 256);
    for opcode in 0..=255u8 {
        if opcode == 0xCB {
            continue;
        }
        let (instruction, name, pc) = decode_at(0x0100, &[opcode, 0x34, 0x12]);
        let (expected_name, expected_size) = table[opcode as usize];
        assert_eq!(name, expected_name, "opcode {:#04x}", opcode);
        assert_eq!(pc, 0x0100 + expected_size, "opcode {:#04x}", opcode);
        assert_eq!(instruction.mnemonic(), name);
        assert_ne!(instruction, Instruction::Unknown);
        assert_ne!(instruction, Instruction::Unassigned);
    }
}

#[test]
fn every_prefixed_opcode_decodes_as_the_table_says() {
    let table = prefixed_table();
    assert_eq!(table.len(), 256);
    for opcode in 0..=255u8 {
        let (instruction, name, pc) = decode_at(0xC000, &[0xCB, opcode, 0xFF]);
        assert_eq!(name, table[opcode as usize], "opcode 0xcb {:#04x}", opcode);
        assert_eq!(pc, 0xC002, "opcode 0xcb {:#04x}", opcode);
        assert_eq!(instruction.mnemonic(), name);
    }
}

#[test]
fn decoding_ends_for_every_opcode_at_every_kind_of_address() {
    for at in [0x0000u16, 0x7FFE, 0x9FFF, 0xDFFD, 0xDFFE, 0xDFFF, 0xE000, 0xFE9F, 0xFFFD, 0xFFFE, 0xFFFF] {
        for opcode in 0..=255u8 {
            let mut bus = MemoryBus::default();
            let _ = bus.write_byte(at, opcode);
            let mut pc: u16 = at;
            let (instruction, _) = Instruction::fetch(&bus, &mut pc);
            let advanced: u16 = pc.wrapping_sub(at);
            assert!(advanced >= 1 && advanced <= 3);
            if instruction == Instruction::Unassigned {
                assert_eq!(advanced, 1);
            }
        }
    }
}

#[test]
fn zero_decodes_to_nop() {
    let (instruction, name, pc) = decode_at(0, &[0x00]);
    assert_eq!(instruction, Instruction::NOP);
    assert_eq!(name, "NOP");
    assert_eq!(pc, 1);
}

#[test]
fn absolute_jump_reads_its_target_low_byte_first() {
    let (instruction, name, pc) = decode_at(0, &[0xC3, 0x50, 0x01]);
    assert_eq!(instruction, Instruction::JPnn(0x0150));
    assert_eq!(name, "JP 0x0150");
    assert_eq!(pc, 3);
}

#[test]
fn relative_jump_keeps_its_offset_as_an_unsigned_byte() {
    let (instruction, _, pc) = decode_at(0x0200, &[0x18, 0xFE]);
    assert_eq!(instruction, Instruction::JRe(0xFE));
    assert_eq!(pc, 0x0202);
    let (instruction, _, _) = decode_at(0x0200, &[0x38, 0x80]);
    assert_eq!(instruction, Instruction::JRcE(Conditional::Carry, 0x80));
}

#[test]
fn pair_field_three_is_sp_for_arithmetic_and_af_for_the_stack() {
    assert_eq!(decode_at(0, &[0x31, 0xFE, 0xFF]).0, Instruction::LDrrNN(Reg16::SP, 0xFFFE));
    assert_eq!(decode_at(0, &[0x39]).0, Instruction::ADDhlRR(Reg16::SP));
    assert_eq!(decode_at(0, &[0x33]).0, Instruction::INCrr(Reg16::SP));
    assert_eq!(decode_at(0, &[0x3B]).0, Instruction::DECrr(Reg16::SP));
    assert_eq!(decode_at(0, &[0xF1]).0, Instruction::POPrr(Reg16::AF));
    assert_eq!(decode_at(0, &[0xF5]).0, Instruction::PUSHrr(Reg16::AF));
    assert_eq!(Reg16::from(3, true), Reg16::SP);
    assert_eq!(Reg16::from(3, false), Reg16::AF);
    assert_eq!(Reg16::from(0, true), Reg16::BC);
    assert_eq!(Reg16::from(1, false), Reg16::DE);
    assert_eq!(Reg16::from(2, false), Reg16::HL);
    assert_eq!(Reg16::from(4, true), Reg16::Unknown);
}

#[test]
fn load_of_the_memory_slot_into_itself_is_halt() {
    assert_eq!(decode_at(0, &[0x76]).0, Instruction::HALT);
    assert_eq!(decode_at(0, &[0x70]).0, Instruction::LDrR(Reg8::MHL, Reg8::B));
    assert_eq!(decode_at(0, &[0x7E]).0, Instruction::LDrR(Reg8::A, Reg8::MHL));
}

#[test]
fn accumulator_operations_take_operation_and_register_from_their_fields() {
    assert_eq!(decode_at(0, &[0x80]).0, Instruction::ALUaR(Operation::ADD, Reg8::B));
    assert_eq!(decode_at(0, &[0xAF]).0, Instruction::ALUaR(Operation::XOR, Reg8::A));
    assert_eq!(decode_at(0, &[0xBE]).0, Instruction::ALUaR(Operation::CP, Reg8::MHL));
    assert_eq!(decode_at(0, &[0xFE, 0x90]).0, Instruction::ALUaN(Operation::CP, 0x90));
}

#[test]
fn restart_carries_its_vector() {
    assert_eq!(decode_at(0, &[0xC7]).0, Instruction::RSTn(0x00));
    assert_eq!(decode_at(0, &[0xEF]).0, Instruction::RSTn(0x28));
    assert_eq!(decode_at(0, &[0xFF]).0, Instruction::RSTn(0x38));
}

#[test]
fn prefixed_rotates_take_their_direction_from_bit_three() {
    assert_eq!(decode_at(0, &[0xCB, 0x00]).0, Instruction::RdCr(Direction::Left, Reg8::B));
    assert_eq!(decode_at(0, &[0xCB, 0x0F]).0, Instruction::RdCr(Direction::Right, Reg8::A));
    assert_eq!(decode_at(0, &[0xCB, 0x11]).0, Instruction::RdR(Direction::Left, Reg8::C));
    assert_eq!(decode_at(0, &[0xCB, 0x1A]).0, Instruction::RdR(Direction::Right, Reg8::D));
    assert_eq!(decode_at(0, &[0xCB, 0x26]).0, Instruction::SdAr(Direction::Left, Reg8::MHL));
    assert_eq!(decode_at(0, &[0xCB, 0x2C]).0, Instruction::SdAr(Direction::Right, Reg8::H));
    assert_eq!(decode_at(0, &[0xCB, 0x37]).0, Instruction::SWAPr(Reg8::A));
    assert_eq!(decode_at(0, &[0xCB, 0x3D]).0, Instruction::SRLr(Reg8::L));
}

#[test]
fn prefixed_bit_instructions_carry_index_and_register() {
    assert_eq!(decode_at(0, &[0xCB, 0x7C]).0, Instruction::BITnR(7, Reg8::H));
    assert_eq!(decode_at(0, &[0xCB, 0x86]).0, Instruction::RESnR(0, Reg8::MHL));
    assert_eq!(decode_at(0, &[0xCB, 0xFF]).0, Instruction::SETnR(7, Reg8::A));
}

#[test]
fn accumulator_rotates_take_their_direction_from_bit_three() {
    assert_eq!(decode_at(0, &[0x07]).0, Instruction::RdCA(Direction::Left));
    assert_eq!(decode_at(0, &[0x0F]).0, Instruction::RdCA(Direction::Right));
    assert_eq!(decode_at(0, &[0x17]).0, Instruction::RdA(Direction::Left));
    assert_eq!(decode_at(0, &[0x1F]).0, Instruction::RdA(Direction::Right));
}

#[test]
fn the_four_opcodes_without_a_meaning_are_invalid() {
    for opcode in [0xD3u8, 0xDB, 0xE3, 0xEB] {
        let (instruction, name, pc) = decode_at(0, &[opcode]);
        assert_eq!(instruction, Instruction::Invalid);
        assert_eq!(name, "Invalid");
        assert_eq!(pc, 1);
    }
}

#[test]
fn an_opcode_in_a_gap_is_unassigned_and_skipped() {
    let bus = MemoryBus::default();
    let mut pc: u16 = 0xE000;
    let (instruction, name) = Instruction::fetch(&bus, &mut pc);
    assert_eq!(instruction, Instruction::Unassigned);
    assert_eq!(name, "Unassigned");
    assert_eq!(pc, 0xE001);
}

#[test]
fn an_operand_in_a_gap_makes_the_instruction_unassigned() {
    // JP nn with its second operand byte in the gap above work RAM
    let (instruction, _, pc) = decode_at(0xDFFE, &[0xC3, 0x50]);
    assert_eq!(instruction, Instruction::Unassigned);
    assert_eq!(pc, 0xDFFF);
    // LD B, n with its operand in the gap
    let (instruction, _, pc) = decode_at(0xDFFF, &[0x06]);
    assert_eq!(instruction, Instruction::Unassigned);
    assert_eq!(pc, 0xE000);
    // the prefix with its second byte in the gap
    let (instruction, _, pc) = decode_at(0xDFFF, &[0xCB]);
    assert_eq!(instruction, Instruction::Unassigned);
    assert_eq!(pc, 0xE000);
}

#[test]
fn an_operand_beyond_the_top_of_memory_makes_the_instruction_unassigned() {
    let (instruction, _, pc) = decode_at(0xFFFF, &[0x3E]);
    assert_eq!(instruction, Instruction::Unassigned);
    assert_eq!(pc, 0x0000);
    let bus = bus_with(0xFFFE, &[0xC3, 0x50]);
    let mut pc: u16 = 0xFFFE;
    assert_eq!(Instruction::fetch(&bus, &mut pc).0, Instruction::Unassigned);
    assert_eq!(pc, 0xFFFF);
}

#[test]
fn the_program_counter_wraps_past_the_last_byte_of_memory() {
    let bus = bus_with(0xFFFF, &[0x00]);
    let mut pc: u16 = 0xFFFF;
    assert_eq!(Instruction::fetch(&bus, &mut pc).0, Instruction::NOP);
    assert_eq!(pc, 0x0000);
    let bus = bus_with(0xFFFD, &[0xC3, 0x50, 0x01]);
    let mut pc: u16 = 0xFFFD;
    assert_eq!(Instruction::fetch(&bus, &mut pc).0, Instruction::JPnn(0x0150));
    assert_eq!(pc, 0x0000);
}

#[test]
fn mnemonics_write_numbers_in_hexadecimal() {
    assert_eq!(Instruction::LDmnnSP(0xABCD).mnemonic(), "LD (0xabcd), SP");
    assert_eq!(Instruction::LDrrNN(Reg16::HL, 0x000F).mnemonic(), "LD HL, 0x000f");
    assert_eq!(Instruction::LDrN(Reg8::MHL, 0x07).mnemonic(), "LD (HL), 0x07");
    assert_eq!(Instruction::JRcE(Conditional::NotZero, 0xFB).mnemonic(), "JR NZ, 0xfb");
    assert_eq!(Instruction::LDmzpPnA(0x44).mnemonic(), "LD (0xFF00+0x44), A");
    assert_eq!(Instruction::LDhlSPpN(0x80).mnemonic(), "LD HL, SP+0x80");
    assert_eq!(Instruction::BITnR(3, Reg8::E).mnemonic(), "BIT 0x03, E");
    assert_eq!(Instruction::RSTn(0x38).mnemonic(), "RST 0x38");
    assert_eq!(Instruction::Unknown.mnemonic(), "Unknown");
}

#[test]
fn mnemonics_name_reserved_operands() {
    assert_eq!(Instruction::INCr(Reg8::Unknown).mnemonic(), "INC Unknown Register");
    assert_eq!(Instruction::PUSHrr(Reg16::Unknown).mnemonic(), "PUSH Unknown Register");
    assert_eq!(Instruction::RETc(Conditional::Invalid).mnemonic(), "RET Invalid Conditional");
    assert_eq!(
        Instruction::ALUaN(Operation::Invalid, 1).mnemonic(),
        "Invalid ALU Operation A, 0x01"
    );
    assert_eq!(Instruction::RdA(Direction::Unknown).mnemonic(), "RdA Unknown Direction");
}

#[test]
fn selectors_decode_their_fields() {
    let regs = [Reg8::B, Reg8::C, Reg8::D, Reg8::E, Reg8::H, Reg8::L, Reg8::MHL, Reg8::A];
    let ops = [
        Operation::ADD,
        Operation::ADC,
        Operation::SUB,
        Operation::SBC,
        Operation::AND,
        Operation::XOR,
        Operation::OR,
        Operation::CP,
    ];
    for bits in 0..8u8 {
        assert_eq!(Reg8::from(bits), regs[bits as usize]);
        assert_eq!(Operation::from(bits), ops[bits as usize]);
    }
    assert_eq!(Reg8::from(8), Reg8::Unknown);
    assert_eq!(Operation::from(8), Operation::Invalid);
    assert_eq!(Conditional::from(0), Conditional::NotZero);
    assert_eq!(Conditional::from(1), Conditional::Zero);
    assert_eq!(Conditional::from(2), Conditional::NotCarry);
    assert_eq!(Conditional::from(3), Conditional::Carry);
    assert_eq!(Conditional::from(4), Conditional::Invalid);
    assert_eq!(Direction::from(0), Direction::Left);
    assert_eq!(Direction::from(1), Direction::Right);
    assert_eq!(Direction::from(2), Direction::Unknown);
}

#[test]
fn selectors_have_names() {
    assert_eq!(Reg8::MHL.name(), "(HL)");
    assert_eq!(Reg8::A.name(), "A");
    assert_eq!(Reg16::AF.name(), "AF");
    assert_eq!(Reg16::SP.name(), "SP");
    assert_eq!(Conditional::NotCarry.name(), "NC");
    assert_eq!(Conditional::Invalid.name(), "Invalid Conditional");
    assert_eq!(Operation::SBC.name(), "SBC");
    assert_eq!(Operation::Invalid.name(), "Invalid ALU Operation");
    assert_eq!(Direction::Left.name(), "Left");
    assert_eq!(Direction::Right.name(), "Right");
    assert_eq!(Direction::Unknown.name(), "Unknown Direction");
}
