use rustyboi::machine::ExecError;
use rustyboi::diagnostics::{GlobalFlags, Severity};
use rustyboi::mnemonic::{hex16, hex8};
use rustyboi::rom::{fit_boot_rom, BootRomFit};

#[test]
fn a_boot_program_of_256_bytes_is_taken_as_it_is() {
    let mut data = Vec::new();
    for i in 0..256u32 {
        data.push((i * 7 % 256) as u8);
    }
    let (image, fit) = fit_boot_rom(&data);
    assert_eq!(fit, BootRomFit::Exact);
    assert_eq!(&image[..], &data[..]);
}

#[test]
fn a_short_boot_program_is_padded_with_zeros() {
    let data = vec![0x31u8, 0xFE, 0xFF];
    let (image, fit) = fit_boot_rom(&data);
    assert_eq!(fit, BootRomFit::Short(253));
    assert_eq!(&image[..3], &[0x31, 0xFE, 0xFF]);
    assert!(image[3..].iter().all(|byte| *byte == 0));
}

#[test]
fn an_empty_boot_program_is_all_zeros() {
    let (image, fit) = fit_boot_rom(&[]);
    assert_eq!(fit, BootRomFit::Short(256));
    assert!(image.iter().all(|byte| *byte == 0));
}

#[test]
fn a_long_boot_program_is_cut() {
    let mut data = Vec::new();
    for i in 0..300u32 {
        data.push((i % 251) as u8 + 1);
    }
    let (image, fit) = fit_boot_rom(&data);
    assert_eq!(fit, BootRomFit::Long(44));
    assert_eq!(&image[..], &data[..256]);
}

#[test]
fn strict_settings_make_every_condition_fatal() {
    assert_eq!(GlobalFlags { is_strict: true }.severity(), Severity::Fatal);
    assert_eq!(GlobalFlags { is_strict: false }.severity(), Severity::Warning);
    assert_eq!(GlobalFlags::default().severity(), Severity::Warning);
}

#[test]
fn every_condition_has_its_message() {
    assert_eq!(
        ExecError::UnassignedAddress.message(),
        "CPU tried to access unassigned part of memory"
    );
    assert_eq!(ExecError::InvalidEncoding.message(), "Invalid instruction");
    assert_eq!(ExecError::UnassignedOpcode.message(), "Unassigned instruction");
    assert_eq!(
        ExecError::UnknownOpcode.message(),
        "Unknown instruction? That's not supposed to happen"
    );
    assert_eq!(ExecError::ProgramCounterOverflow.message(), "Program counter overflowed");
}

#[test]
fn numbers_are_written_in_padded_lower_case_hexadecimal() {
    assert_eq!(hex8(0x00), "0x00");
    assert_eq!(hex8(0x0A), "0x0a");
    assert_eq!(hex8(0xFF), "0xff");
    assert_eq!(hex16(0x0000), "0x0000");
    assert_eq!(hex16(0x0150), "0x0150");
    assert_eq!(hex16(0xBEEF), "0xbeef");
    for value in 0..=255u8 {
        assert_eq!(hex8(value), format!("{:#04x}", value));
    }
    for value in [0x0001u16, 0x0010, 0x0100, 0x1000, 0x9abc, 0xffff] {
        assert_eq!(hex16(value), format!("{:#06x}", value));
    }
}
