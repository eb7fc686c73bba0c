use retrospector::systems::helpers::{detect_trailing_padding, detect_unique_size};
use retrospector::systems::snes::detection::{snes_checksum, SNES_ROM_MIN_BYTES};

#[test]
fn checksum_power_of_2_rom() {
    let data: Vec<u8> = (0..65536u32).map(|i| (i % 251) as u8).collect();
    let expected: u16 = data.iter().fold(0u16, |s, &b| s.wrapping_add(b as u16));
    assert_eq!(snes_checksum(&data, data.len()), expected);
}

#[test]
fn checksum_mirrored_3mb_to_4mb() {
    let base: Vec<u8> = (0..2 * 1024 * 1024u32).map(|i| (i % 251) as u8).collect();
    let remainder: Vec<u8> = (0..1024 * 1024u32).map(|i| (i % 239) as u8).collect();
    let mut data = base.clone();
    data.extend_from_slice(&remainder);

    let base_sum: u32 = base.iter().map(|&b| b as u32).sum();
    let rem_sum: u32 = remainder.iter().map(|&b| b as u32).sum();
    let expected = (base_sum + rem_sum * 2) as u16;

    assert_eq!(snes_checksum(&data, 4 * 1024 * 1024), expected);
}

#[test]
fn checksum_mirrored_1_5mb_to_2mb() {
    let base: Vec<u8> = (0..1024 * 1024u32).map(|i| (i % 251) as u8).collect();
    let remainder: Vec<u8> = (0..512 * 1024u32).map(|i| (i % 239) as u8).collect();
    let mut data = base.clone();
    data.extend_from_slice(&remainder);

    let base_sum: u32 = base.iter().map(|&b| b as u32).sum();
    let rem_sum: u32 = remainder.iter().map(|&b| b as u32).sum();
    let expected = (base_sum + rem_sum * 2) as u16;

    assert_eq!(snes_checksum(&data, 2 * 1024 * 1024), expected);
}

#[test]
fn checksum_file_larger_than_declared() {
    let data: Vec<u8> = (0..2 * 1024 * 1024u32).map(|i| (i % 251) as u8).collect();
    let expected: u16 = data[..1024 * 1024]
        .iter()
        .fold(0u16, |s, &b| s.wrapping_add(b as u16));
    assert_eq!(snes_checksum(&data, 1024 * 1024), expected);
}

#[test]
fn detects_2x_snes_overdump() {
    let half: Vec<u8> = (0..SNES_ROM_MIN_BYTES).map(|i| (i % 251) as u8).collect();
    let mut data = half.clone();
    data.extend_from_slice(&half);
    let result = detect_unique_size(&data, SNES_ROM_MIN_BYTES);
    assert_eq!(result, Some(SNES_ROM_MIN_BYTES));
}

#[test]
fn detects_snes_padding_overdump() {
    let real: Vec<u8> = (0..SNES_ROM_MIN_BYTES).map(|i| (i % 251) as u8).collect();
    let mut data = real;
    data.extend(vec![0xFF; SNES_ROM_MIN_BYTES]);
    let unique = detect_unique_size(&data, SNES_ROM_MIN_BYTES);
    let padding = detect_trailing_padding(&data, SNES_ROM_MIN_BYTES);
    assert!(unique.is_none() || padding.is_some());
    assert_eq!(padding, Some(SNES_ROM_MIN_BYTES));
}

#[test]
fn no_snes_overdump_for_unique_data() {
    let mut data = vec![0u8; 2 * SNES_ROM_MIN_BYTES];
    for (i, byte) in data.iter_mut().enumerate() {
        *byte = (i.wrapping_mul(2654435761) >> 16) as u8;
    }
    assert_eq!(detect_unique_size(&data, SNES_ROM_MIN_BYTES), None);
    assert_eq!(detect_trailing_padding(&data, SNES_ROM_MIN_BYTES), None);
}
