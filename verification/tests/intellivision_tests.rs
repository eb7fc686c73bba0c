use retrospector::systems::intellivision::{BootMode, IntellivisionInfo};

const BIDECLE_BYTES: usize = 4;
const MIN_ROM_SIZE: usize = 2048;
const FLAGS_OFFSET: usize = 24;

/// A minimal Intellivision ROM with the given BIDECLE values and flags
/// DECLE at byte offset 24.
fn build_rom(bidecles: &[u16; 6], flags: u16, extra: &[(usize, &[u8])]) -> Vec<u8> {
    let mut buf = vec![0u8; MIN_ROM_SIZE];
    for (i, &val) in bidecles.iter().enumerate() {
        let lo = (val & 0xFF) as u8;
        let hi = ((val >> 8) & 0xFF) as u8;
        let off = i * BIDECLE_BYTES;
        buf[off] = 0x00;
        buf[off + 1] = lo;
        buf[off + 2] = 0x00;
        buf[off + 3] = hi;
    }
    let flags_bytes = flags.to_be_bytes();
    buf[FLAGS_OFFSET] = flags_bytes[0];
    buf[FLAGS_OFFSET + 1] = flags_bytes[1];
    for &(offset, data) in extra {
        buf[offset..offset + data.len()].copy_from_slice(data);
    }
    buf
}

#[test]
fn detects_exec_rom() {
    let rom = build_rom(
        &[0x5000, 0x5100, 0x5200, 0x5300, 0x5400, 0x0000],
        0x0000,
        &[],
    );
    let info = IntellivisionInfo::try_from(rom.as_slice()).unwrap();
    assert_eq!(info.boot_mode, BootMode::Exec);
    assert_eq!(info.program_start, 0x5200);
    assert_eq!(info.size_kb, 2);
    assert!(!info.intv2_compat);
}

#[test]
fn detects_exec_rom_with_flags() {
    let rom = build_rom(
        &[0x5000, 0x5100, 0x5200, 0x5300, 0x5400, 0x0000],
        0x03C0,
        &[],
    );
    let info = IntellivisionInfo::try_from(rom.as_slice()).unwrap();
    assert_eq!(info.boot_mode, BootMode::Exec);
    assert!(info.intv2_compat);
    assert!(info.skips_ecs_title);
    assert!(info.runs_post_title_code);
}

#[test]
fn detects_non_exec_rom() {
    let rom = build_rom(
        &[0x0000, 0x0000, 0x0000, 0x0000, 0x500D, 0x500E],
        0x0000,
        &[],
    );
    let info = IntellivisionInfo::try_from(rom.as_slice()).unwrap();
    assert_eq!(info.boot_mode, BootMode::ExecBypass);
    assert_eq!(info.program_start, 0);
    assert!(!info.intv2_compat);
    assert!(info.title.is_none());
}

#[test]
fn accepts_extended_address_ranges() {
    let rom = build_rom(
        &[0x0000, 0x6E1B, 0x5048, 0xD5D4, 0xDE24, 0x6E2D],
        0x0180,
        &[],
    );
    let info = IntellivisionInfo::try_from(rom.as_slice()).unwrap();
    assert_eq!(info.boot_mode, BootMode::Exec);
    assert_eq!(info.program_start, 0x5048);
    assert!(!info.intv2_compat);
    assert!(info.skips_ecs_title);
}

#[test]
fn rejects_too_small() {
    let rom = vec![0u8; 1024];
    assert!(IntellivisionInfo::try_from(rom.as_slice()).is_err());
}

#[test]
fn rejects_high_byte_above_one() {
    let mut rom = build_rom(
        &[0x0000, 0x0000, 0x5200, 0x0000, 0x0000, 0x0000],
        0x0000,
        &[],
    );
    rom[0] = 0x02;
    assert!(IntellivisionInfo::try_from(rom.as_slice()).is_err());
}

#[test]
fn rejects_no_cart_rom_pointer() {
    let rom = build_rom(
        &[0x0000, 0x0000, 0x0000, 0x0000, 0x0000, 0x0000],
        0x0000,
        &[],
    );
    assert!(IntellivisionInfo::try_from(rom.as_slice()).is_err());
}

#[test]
fn extracts_title_and_year() {
    let title_data: &[u8] = &[0x00, 81, 0x00, b'H', 0x00, b'i', 0x00, 0x00];
    let rom = build_rom(
        &[0x0000, 0x0000, 0x5200, 0x0000, 0x0000, 0x5100],
        0x0000,
        &[(0x200, title_data)],
    );
    let info = IntellivisionInfo::try_from(rom.as_slice()).unwrap();
    assert_eq!(info.title, Some("Hi".to_string()));
    assert_eq!(info.year, Some(1981));
}

#[test]
fn no_title_when_pointer_zero() {
    let rom = build_rom(
        &[0x0000, 0x0000, 0x5200, 0x0000, 0x0000, 0x0000],
        0x0000,
        &[],
    );
    let info = IntellivisionInfo::try_from(rom.as_slice()).unwrap();
    assert_eq!(info.title, None);
    assert_eq!(info.year, None);
}
