use rustyboi::flags::RegFlags;
use rustyboi::registers::{Reg16, Reg8, Registers};

fn sample() -> Registers {
    Registers {
        a: 0x01,
        b: 0x12,
        c: 0x34,
        d: 0x56,
        e: 0x78,
        h: 0x9A,
        l: 0xBC,
        f: RegFlags { z: true, n: false, h: true, c: false },
        sp: 0xFFFE,
        pc: 0x0100,
    }
}

#[test]
fn a_fresh_register_file_is_all_zero() {
    let registers = Registers::default();
    assert_eq!(registers.a, 0);
    assert_eq!(registers.read16(Reg16::BC), Some(0));
    assert_eq!(registers.read16(Reg16::DE), Some(0));
    assert_eq!(registers.read16(Reg16::HL), Some(0));
    assert_eq!(registers.read16(Reg16::AF), Some(0));
    assert_eq!(registers.sp, 0);
    assert_eq!(registers.pc, 0);
    assert_eq!(registers.f, RegFlags::default());
}

#[test]
fn a_pair_reads_its_first_register_high() {
    let registers = sample();
    assert_eq!(registers.read16(Reg16::BC), Some(0x1234));
    assert_eq!(registers.read16(Reg16::DE), Some(0x5678));
    assert_eq!(registers.read16(Reg16::HL), Some(0x9ABC));
    assert_eq!(registers.hl(), 0x9ABC);
    assert_eq!(registers.read16(Reg16::SP), Some(0xFFFE));
    assert_eq!(registers.read16(Reg16::AF), Some(0x0105));
    assert_eq!(registers.read16(Reg16::Unknown), None);
}

#[test]
fn a_pair_write_sets_both_halves() {
    let mut registers = sample();
    assert!(registers.write16(Reg16::BC, 0xCAFE));
    assert_eq!((registers.b, registers.c), (0xCA, 0xFE));
    assert!(registers.write16(Reg16::DE, 0x0102));
    assert_eq!((registers.d, registers.e), (0x01, 0x02));
    assert!(registers.write16(Reg16::HL, 0xFF00));
    assert_eq!((registers.h, registers.l), (0xFF, 0x00));
    assert!(registers.write16(Reg16::SP, 0x8000));
    assert_eq!(registers.sp, 0x8000);
    assert_eq!(registers.a, 0x01);
    assert_eq!(registers.pc, 0x0100);
}

#[test]
fn the_flag_pair_keeps_only_the_four_flag_bits() {
    let mut registers = sample();
    assert!(registers.write16(Reg16::AF, 0x12FF));
    assert_eq!(registers.a, 0x12);
    assert_eq!(registers.f, RegFlags { z: true, n: true, h: true, c: true });
    assert_eq!(registers.read16(Reg16::AF), Some(0x120F));
    assert!(registers.write16(Reg16::AF, 0x34F8));
    assert_eq!(registers.f, RegFlags { z: false, n: false, h: false, c: true });
    assert_eq!(registers.read16(Reg16::AF), Some(0x3408));
}

#[test]
fn the_reserved_pair_is_not_written() {
    let mut registers = sample();
    assert!(!registers.write16(Reg16::Unknown, 0xFFFF));
    assert_eq!(registers, sample());
}

#[test]
fn every_pair_reads_back_what_was_written() {
    for reg in [Reg16::BC, Reg16::DE, Reg16::HL, Reg16::SP] {
        for value in [0x0000u16, 0x00FF, 0xFF00, 0xFFFF, 0x1234] {
            let mut registers = sample();
            assert!(registers.write16(reg, value));
            assert_eq!(registers.read16(reg), Some(value));
        }
    }
}

#[test]
fn single_registers_read_and_write() {
    let mut registers = sample();
    assert_eq!(registers.read8(Reg8::B), Some(0x12));
    assert_eq!(registers.read8(Reg8::C), Some(0x34));
    assert_eq!(registers.read8(Reg8::D), Some(0x56));
    assert_eq!(registers.read8(Reg8::E), Some(0x78));
    assert_eq!(registers.read8(Reg8::H), Some(0x9A));
    assert_eq!(registers.read8(Reg8::L), Some(0xBC));
    assert_eq!(registers.read8(Reg8::A), Some(0x01));
    assert_eq!(registers.read8(Reg8::MHL), None);
    assert_eq!(registers.read8(Reg8::Unknown), None);
    for reg in [Reg8::B, Reg8::C, Reg8::D, Reg8::E, Reg8::H, Reg8::L, Reg8::A] {
        assert!(registers.write8(reg, 0xEE));
        assert_eq!(registers.read8(reg), Some(0xEE));
    }
    let before = registers;
    assert!(!registers.write8(Reg8::MHL, 0x11));
    assert!(!registers.write8(Reg8::Unknown, 0x11));
    assert_eq!(registers, before);
}
