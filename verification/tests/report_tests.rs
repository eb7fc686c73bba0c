use retrospector::output::hash::{compute_hashes, format_sha1};
use retrospector::systems::gamecom::GamecomRomInfo;
use retrospector::systems::intellivision::{BootMode, IntellivisionInfo};
use retrospector::systems::n64::{N64Format, N64RomInfo};
use retrospector::systems::sms::{SmsConsole, SmsRomInfo};
use retrospector::systems::snes::format_bits;

fn sha(data: &[u8]) -> [u8; 20] {
    compute_hashes(data).sha1
}

#[test]
fn n64_report_text() {
    let info = N64RomInfo {
        rom_format: N64Format::ByteSwapped,
        stored_title: "MARIO: KART 'X".to_string(),
        stored_format: "KM".to_string(),
        media: 'N',
        country_code: 0x45,
        crc1: 1,
        crc2: 2,
        calculated_crc1: 1,
        calculated_crc2: 2,
        revision: 1,
        rom_sha1: sha(b"x"),
    };
    let expected = format!(
        "Stored title: MARIO: KART 'X\nStored Id: NKM\nRegion Code: North America\nRevision: 1\nMedia Format: Cartridge\nCanonical file name: MARIOKARTX.NKM.v64\nStored Checksum: (00000001,00000002) is valid\nSHA1: {}\n",
        format_sha1(&sha(b"x"))
    );
    assert_eq!(info.describe(), expected);
}

#[test]
fn n64_report_shows_both_checksums_when_they_differ() {
    let info = N64RomInfo {
        rom_format: N64Format::BigEndian,
        stored_title: "T".to_string(),
        stored_format: "AB".to_string(),
        media: 'Q',
        country_code: 0x00,
        crc1: 0xDEADBEEF,
        crc2: 2,
        calculated_crc1: 1,
        calculated_crc2: 2,
        revision: 0,
        rom_sha1: sha(b""),
    };
    let text = info.describe();
    assert!(text.contains("Region Code: Unknown\n"));
    assert!(text.contains("Media Format: Unknown\n"));
    assert!(text.contains("Canonical file name: T.QAB.z64\n"));
    assert!(text.contains("Stored Checksum:     (DEADBEEF,00000002)\nCalculated Checksum: (00000001,00000002)\n"));
}

#[test]
fn intellivision_report_text() {
    let info = IntellivisionInfo {
        boot_mode: BootMode::Exec,
        title: Some("Hi".to_string()),
        year: Some(1981),
        program_start: 0x5200,
        intv2_compat: false,
        skips_ecs_title: true,
        runs_post_title_code: false,
        size_kb: 8,
        rom_sha1: sha(b"i"),
    };
    let expected = format!(
        "Boot: Title Screen (EXEC)\nTitle: Hi\nYear: 1981\nIntellivision 2: Not Compatible\nECS Title Screen: Skipped\nSize: 8 KB\nProgram Start: 0x5200\nSHA1: {}\n",
        format_sha1(&sha(b"i"))
    );
    assert_eq!(info.describe(), expected);
}

#[test]
fn gamecom_report_text() {
    let info = GamecomRomInfo {
        program_string: *b" GAME\0\0\0\0",
        program_id: 0x1A,
        allowed_slot1: true,
        allowed_slot2: false,
        data_only: true,
        icon_present: false,
    };
    assert_eq!(
        info.describe(),
        "Name: GAME\nProgram Id: 001A\nAllowed in Slot: 1\nData-only Cartridge\nNo icon present"
    );
    let blank = GamecomRomInfo {
        program_string: [0u8; 9],
        program_id: 0,
        allowed_slot1: true,
        allowed_slot2: true,
        data_only: false,
        icon_present: true,
    };
    assert_eq!(blank.describe(), "Name: Unknown\nProgram Id: 0000\nAllowed in Slot: 1 & 2");
}

#[test]
fn sms_report_text() {
    let info = SmsRomInfo {
        console: SmsConsole::MasterSystem,
        product_code: 7001,
        version: 0,
        region_code: 4,
        rom_size_code: 0xC,
        file_size: 0x10000,
        stored_checksum: 0x1234,
        calculated_checksum: 0x1234,
        header_offset: 0x7FF0,
        size_header_mismatch: true,
        rom_sha1: sha(b"s"),
    };
    let expected = format!(
        "Product Code: 7001\nRegion: Export (SMS)\nROM Size: 64 KiB\nWarning: Header declares 32 KiB (checksum covers only this range), but file is 64 KiB\nHeader Location: 0x7FF0\nStored Checksum: 1234 is valid\nSHA1: {}\nWarning: ROM size code (0xC) expects header at 0x7FF0, but found at 0x7FF0\n",
        format_sha1(&sha(b"s"))
    );
    assert_eq!(info.describe("64 KiB", "32 KiB"), expected);
}

#[test]
fn bit_counts_in_whole_units() {
    assert_eq!(format_bits(8 * 1024 * 1024).as_deref(), Some("8 Mibit"));
    assert_eq!(format_bits(2048).as_deref(), Some("2 Kibit"));
    assert_eq!(format_bits(100).as_deref(), Some("100 bit"));
    assert_eq!(format_bits(1024 * 1024 + 8), None);
}
