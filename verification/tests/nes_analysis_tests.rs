use retrospector::systems::helpers::detect_unique_size;
use retrospector::systems::nes::analysis::{analyze, AnalysisWarning};
use retrospector::systems::nes::mapper::Mapper;

#[test]
fn no_overdump_in_unique_data() {
    let mut data = vec![0u8; 32768];
    for (i, byte) in data.iter_mut().enumerate() {
        *byte = (i.wrapping_mul(2654435761) >> 16) as u8;
    }
    assert_eq!(detect_unique_size(&data, 8192), None);
}

#[test]
fn detects_2x_overdump() {
    let half: Vec<u8> = (0..16384).map(|i| (i % 251) as u8).collect();
    let mut data = half.clone();
    data.extend_from_slice(&half);
    assert_eq!(detect_unique_size(&data, 8192), Some(16384));
}

#[test]
fn detects_4x_overdump() {
    let quarter: Vec<u8> = (0..8192).map(|i| (i % 251) as u8).collect();
    let mut data = Vec::new();
    for _ in 0..4 {
        data.extend_from_slice(&quarter);
    }
    assert_eq!(detect_unique_size(&data, 8192), Some(8192));
}

#[test]
fn detects_non_power_of_2_overdump() {
    let block_a: Vec<u8> = (0..8192).map(|i| (i % 251) as u8).collect();
    let block_b: Vec<u8> = (0..8192).map(|i| (i % 241) as u8).collect();
    let block_c: Vec<u8> = (0..8192).map(|i| (i % 239) as u8).collect();
    let mut data = Vec::new();
    data.extend_from_slice(&block_a);
    data.extend_from_slice(&block_b);
    data.extend_from_slice(&block_c);
    data.extend_from_slice(&block_a);
    assert_eq!(detect_unique_size(&data, 8192), Some(24576));
}

#[test]
fn does_not_go_below_min_block() {
    let quarter: Vec<u8> = (0..4096).map(|_| 0xAA).collect();
    let mut data = quarter.clone();
    data.extend_from_slice(&quarter);
    assert_eq!(detect_unique_size(&data, 8192), None);
}

#[test]
fn skips_small_data() {
    let data = vec![0u8; 8192];
    assert_eq!(detect_unique_size(&data, 8192), None);
}

#[test]
fn mapper_chr_ram_only_warning() {
    let prg = vec![0u8; 32768];
    let chr = vec![0u8; 8192];
    let result = analyze(&prg, Some(&chr), &Mapper::UxROM);
    assert!(
        result
            .warnings
            .iter()
            .any(|w| matches!(w, AnalysisWarning::UnexpectedChrRom))
    );
}

#[test]
fn mapper_prg_too_large_warning() {
    let prg = vec![0u8; 64 * 1024];
    let result = analyze(&prg, None, &Mapper::NROM);
    assert!(
        result
            .warnings
            .iter()
            .any(|w| matches!(w, AnalysisWarning::PrgTooLarge { .. }))
    );
}

#[test]
fn no_warnings_for_valid_rom() {
    let prg: Vec<u8> = (0..32768).map(|i| (i % 251) as u8).collect();
    let chr: Vec<u8> = (0..8192).map(|i| (i % 239) as u8).collect();
    let result = analyze(&prg, Some(&chr), &Mapper::NROM);
    assert!(result.warnings.is_empty());
}

#[test]
fn unknown_mapper_no_warnings() {
    let prg: Vec<u8> = (0..1024 * 1024).map(|i| (i % 251) as u8).collect();
    let chr: Vec<u8> = (0..512 * 1024).map(|i| (i % 239) as u8).collect();
    let result = analyze(
        &prg,
        Some(&chr),
        &Mapper::Unknown {
            ines_mapper_number: 999,
        },
    );
    assert!(
        result
            .warnings
            .iter()
            .all(|w| !matches!(w, AnalysisWarning::PrgTooLarge { .. }))
    );
}

#[test]
fn detects_blank_prg_all_ff() {
    let prg = vec![0xFFu8; 256 * 1024];
    let chr: Vec<u8> = (0..8192).map(|i| (i % 251) as u8).collect();
    let result = analyze(&prg, Some(&chr), &Mapper::MMC3);
    assert!(
        result
            .warnings
            .iter()
            .any(|w| matches!(w, AnalysisWarning::BlankPrg { fill_byte: 0xFF }))
    );
    assert_eq!(result.prg_unique_bytes, None);
}

#[test]
fn detects_blank_chr_all_00() {
    let prg: Vec<u8> = (0..32768).map(|i| (i % 251) as u8).collect();
    let chr = vec![0x00u8; 256 * 1024];
    let result = analyze(&prg, Some(&chr), &Mapper::MMC3);
    assert!(
        result
            .warnings
            .iter()
            .any(|w| matches!(w, AnalysisWarning::BlankChr { fill_byte: 0x00 }))
    );
    assert_eq!(result.chr_unique_bytes, None);
}

#[test]
fn blank_prg_suppresses_overdump() {
    let prg = vec![0xFFu8; 32 * 1024];
    let result = analyze(&prg, None, &Mapper::NROM);
    assert!(
        result
            .warnings
            .iter()
            .any(|w| matches!(w, AnalysisWarning::BlankPrg { .. }))
    );
    assert_eq!(result.prg_unique_bytes, None);
}
