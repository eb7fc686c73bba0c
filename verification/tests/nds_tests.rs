use retrospector::systems::nds::NdsRomInfo;
use retrospector::traits::{ParseError, StoredChecksum};

const NDS_TITLE_START: usize = 0x00;
const NDS_GAME_CODE_START: usize = 0x0C;
const NDS_GAME_CODE_END: usize = 0x10;
const NDS_MAKER_CODE_START: usize = 0x10;
const NDS_MAKER_CODE_END: usize = 0x12;
const NDS_CAPACITY_OFFSET: usize = 0x14;
const NDS_VERSION_OFFSET: usize = 0x01E;
const NDS_HEADER_SIZE_START: usize = 0x84;
const NDS_HEADER_SIZE_END: usize = 0x86;
const NDS_LOGO_CRC_START: usize = 0x15C;
const NDS_LOGO_CRC_END: usize = 0x15E;
const NDS_HEADER_CRC_START: usize = 0x15E;
const NDS_HEADER_CRC_END: usize = 0x160;
const NDS_EXPECTED_LOGO_CRC: u16 = 0xCF56;
const NDS_EXPECTED_HEADER_SIZE: u16 = 0x4000;

/// A synthetic NDS header with all magic fields and a valid header CRC.
fn make_header() -> Vec<u8> {
    let mut buf = vec![0u8; 0x200];
    buf[NDS_TITLE_START..NDS_TITLE_START + 9].copy_from_slice(b"TEST GAME");
    buf[NDS_GAME_CODE_START..NDS_GAME_CODE_END].copy_from_slice(b"ATSE");
    buf[NDS_MAKER_CODE_START..NDS_MAKER_CODE_END].copy_from_slice(b"01");
    buf[NDS_CAPACITY_OFFSET] = 9;
    buf[NDS_VERSION_OFFSET] = 2;
    buf[NDS_HEADER_SIZE_START..NDS_HEADER_SIZE_END]
        .copy_from_slice(&NDS_EXPECTED_HEADER_SIZE.to_le_bytes());
    buf[NDS_LOGO_CRC_START..NDS_LOGO_CRC_END]
        .copy_from_slice(&NDS_EXPECTED_LOGO_CRC.to_le_bytes());
    let modbus = crc::Crc::<u16>::new(&crc::CRC_16_MODBUS);
    let crc = modbus.checksum(&buf[..NDS_HEADER_CRC_START]);
    buf[NDS_HEADER_CRC_START..NDS_HEADER_CRC_END].copy_from_slice(&crc.to_le_bytes());
    buf
}

#[test]
fn parses_valid_header() {
    let buf = make_header();
    let info = NdsRomInfo::try_from(buf.as_slice()).expect("valid header should parse");
    assert_eq!(info.title, "TEST GAME");
    assert_eq!(&info.game_code, b"ATSE");
    assert_eq!(&info.maker_code, b"01");
    assert_eq!(info.capacity, 9);
    assert_eq!(info.version, 2);
    assert_eq!(info.rom_size_mib(), Some(64));
    assert!(info.checksum_matches());
}

#[test]
fn rejects_buffer_too_small() {
    let buf = vec![0u8; 0x100];
    assert_eq!(
        NdsRomInfo::try_from(buf.as_slice()),
        Err(ParseError::BufferTooSmall)
    );
}

#[test]
fn rejects_invalid_logo_crc() {
    let mut buf = make_header();
    buf[NDS_LOGO_CRC_START] ^= 0xFF;
    assert_eq!(
        NdsRomInfo::try_from(buf.as_slice()),
        Err(ParseError::MagicNotFound)
    );
}

#[test]
fn rejects_invalid_header_size() {
    let mut buf = make_header();
    buf[NDS_HEADER_SIZE_START..NDS_HEADER_SIZE_END].copy_from_slice(&0x1234u16.to_le_bytes());
    assert_eq!(
        NdsRomInfo::try_from(buf.as_slice()),
        Err(ParseError::MagicNotFound)
    );
}

#[test]
fn detects_header_crc_mismatch_without_failing_parse() {
    let mut buf = make_header();
    buf[NDS_VERSION_OFFSET] = 0xAA;
    let info = NdsRomInfo::try_from(buf.as_slice()).expect("parse should still succeed");
    assert!(!info.checksum_matches());
}

#[test]
fn rom_size_mib_handles_retail_capacities() {
    let mut info = NdsRomInfo::default();
    for (cap, expected) in [(3u8, 1u32), (6, 8), (9, 64), (12, 512)] {
        info.capacity = cap;
        assert_eq!(info.rom_size_mib(), Some(expected), "capacity {cap}");
    }
}

#[test]
fn rom_size_mib_rejects_out_of_range() {
    let mut info = NdsRomInfo::default();
    for cap in [0u8, 2, 35, 0xFF] {
        info.capacity = cap;
        assert_eq!(info.rom_size_mib(), None, "capacity {cap}");
    }
}

#[test]
fn dat_meta_populates_expected_fields() {
    let buf = make_header();
    let info = NdsRomInfo::try_from(buf.as_slice()).unwrap();
    // Maker code "01" names Nintendo.
    assert_eq!(&info.maker_code, b"01");
    let meta = info.dat_meta_with_maker(Some("Nintendo"));
    assert_eq!(meta.title.as_deref(), Some("TEST GAME"));
    assert_eq!(meta.serial.as_deref(), Some("ATSE"));
    assert_eq!(meta.machine_id.as_deref(), Some("ATSE"));
    assert_eq!(meta.region.as_deref(), Some("USA"));
    assert_eq!(meta.manufacturer.as_deref(), Some("Nintendo"));
    assert_eq!(meta.version.as_deref(), Some("Rev 2"));
}
