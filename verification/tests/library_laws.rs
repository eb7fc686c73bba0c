use retrospector::systems::registry::DetectedRom;
use retrospector::systems::snes::detection::snes_checksum;
use retrospector::systems::fds::FdsRomInfo;
use retrospector::traits::ParseError;
use retrospector::systems::n64::N64RomInfo;
use retrospector::systems::registry::detection_is_defined;
use retrospector::systems::{detect_rom, detect_rom_with_generic_fallback};
use retrospector::systems::nes::analysis::{analyze, AnalysisWarning};
use retrospector::systems::nes::mapper::Mapper;
use retrospector::systems::genesis::publisher::{lookup_publisher, publisher_from_copyright};
use retrospector::output::cue::{
    duration_to_timestamp, enrich_cue, escape_quotes, hash_file_tracks, sector_size_for_format,
    CueSheet, CueSheetFile, CueTrack, EnrichedCue, TrackAnalysis,
};
use retrospector::output::dat::{
    build_game_name, cue_track_roms, nes_header, parse_u32, serialize_dat, str_prefix,
    xml_escape, GameEntry, ReleaseEntry, RomEntry,
};
use retrospector::output::hash::{compute_hashes, format_sha1, hex_upper_spaced};
use retrospector::systems::disc::{detect_disc, DiscAnalysis};
use retrospector::systems::helpers::detect_unique_size;
use retrospector::systems::lookup_detector;
use retrospector::systems::n64::{correct_n64_byte_order, detect_n64_format, N64Format};
use retrospector::text::decimal_string;

fn track(no: &str, format: &str, start: u64) -> CueTrack {
    CueTrack {
        no: no.to_string(),
        format: format.to_string(),
        title: None,
        performer: None,
        songwriter: None,
        isrc: None,
        flags: Vec::new(),
        unknown: Vec::new(),
        pregap: None,
        postgap: None,
        indices: vec![("01".to_string(), start)],
    }
}

fn empty_sheet(files: Vec<CueSheetFile>) -> CueSheet {
    CueSheet {
        files,
        title: None,
        performer: None,
        songwriter: None,
        cd_text_file: None,
        catalog: None,
        unknown: Vec::new(),
    }
}

#[test]
fn system_names_ignore_ascii_case() {
    assert_eq!(lookup_detector("NES"), lookup_detector("nes"));
    assert_eq!(lookup_detector("GameCube"), lookup_detector("gamecube"));
    assert!(lookup_detector("nes").is_some());
    assert!(lookup_detector("no such system").is_none());
}

#[test]
fn corrected_n64_dump_reads_as_big_endian() {
    let mut little = vec![0u8; 64];
    little[..4].copy_from_slice(&[0x40, 0x12, 0x37, 0x80]);
    let f = detect_n64_format(&little).unwrap();
    assert_eq!(f, N64Format::LittleEndian);
    let fixed = correct_n64_byte_order(&little, f);
    assert_eq!(&fixed[..4], &[0x80, 0x37, 0x12, 0x40]);
    assert_eq!(detect_n64_format(&fixed), Ok(N64Format::BigEndian));

    let mut swapped = vec![0u8; 64];
    swapped[..4].copy_from_slice(&[0x37, 0x80, 0x40, 0x12]);
    let f = detect_n64_format(&swapped).unwrap();
    let fixed = correct_n64_byte_order(&swapped, f);
    assert_eq!(detect_n64_format(&fixed), Ok(N64Format::BigEndian));
}

#[test]
fn unique_size_is_a_repeating_prefix() {
    let block: Vec<u8> = (0..4096u32).map(|i| (i % 253) as u8).collect();
    let mut data = block.clone();
    data.extend_from_slice(&block);
    data.extend_from_slice(&block);
    let u = detect_unique_size(&data, 4096).unwrap();
    assert_eq!(u, 4096);
    for i in u..data.len() {
        assert_eq!(data[i], data[i % u]);
    }
}

#[test]
fn xml_escape_replaces_markup() {
    assert_eq!(xml_escape("a<b>&\"c'"), "a&lt;b&gt;&amp;&quot;c'");
    assert_eq!(xml_escape(""), "");
}

#[test]
fn parse_u32_reads_decimal_text() {
    assert_eq!(parse_u32("12"), Some(12));
    assert_eq!(parse_u32("+7"), Some(7));
    assert_eq!(parse_u32("+"), None);
    assert_eq!(parse_u32("-1"), None);
    assert_eq!(parse_u32(""), None);
    assert_eq!(parse_u32("4294967295"), Some(u32::MAX));
    assert_eq!(parse_u32("4294967296"), None);
    assert_eq!(parse_u32("1a"), None);
    for n in [0u32, 9, 10, 99, 12345, u32::MAX] {
        assert_eq!(parse_u32(&decimal_string(n as u64)), Some(n));
    }
}

#[test]
fn timestamps_read_back() {
    assert_eq!(duration_to_timestamp(18183), "04:02:33");
    assert_eq!(duration_to_timestamp(74), "00:00:74");
    assert_eq!(duration_to_timestamp(99 * 60 * 75 + 59 * 75 + 74), "99:59:74");
}

#[test]
fn escape_quotes_trims_and_escapes() {
    assert_eq!(escape_quotes("  a \"b\"  "), "a \\\"b\\\"");
}

#[test]
fn sector_sizes_ignore_case() {
    assert_eq!(sector_size_for_format("mode1/2048"), 2048);
    assert_eq!(sector_size_for_format("MODE2/2336"), 2336);
    assert_eq!(sector_size_for_format("cdg"), 2448);
    assert_eq!(sector_size_for_format("something else"), 2352);
}

#[test]
fn digests_match_known_values() {
    let h = compute_hashes(b"abc");
    assert_eq!(format_sha1(&h.sha1), "A9993E364706816ABA3E25717850C26C9CD0D89D");
    assert_eq!(h.md5_hex_lower(), "900150983cd24fb0d6963f7d28e17f72");
    assert_eq!(
        h.sha256_hex_lower(),
        "ba7816bf8f01cfea414140de5dae2223b00361a396177a9cb410ff61f20015ad"
    );
    assert_eq!(compute_hashes(b"123456789").crc32, 0xCBF43926);
    assert_eq!(compute_hashes(b"123456789").crc32_hex(), "CBF43926");
    assert_eq!(hex_upper_spaced(&[0x4E, 0x45, 0x53]), "4E 45 53");
}

#[test]
fn tracks_are_hashed_over_their_ranges() {
    // Two AUDIO tracks: the first starts at frame 0, the second at frame 1.
    let data: Vec<u8> = (0..3 * 2352u32).map(|i| (i % 7) as u8).collect();
    let tracks = vec![track("01", "AUDIO", 0), track("02", "AUDIO", 1)];
    let hashes = hash_file_tracks(&data, &tracks);
    assert_eq!(hashes.len(), 2);
    assert_eq!(hashes[0].number, "01");
    assert_eq!(hashes[0].size, 2352);
    assert_eq!(hashes[0].sha1, compute_hashes(&data[..2352]).sha1);
    assert_eq!(hashes[1].size, 2 * 2352);
    assert_eq!(hashes[1].crc32, compute_hashes(&data[2352..]).crc32);
    // A track that starts past the end of the data is left out.
    let late = vec![track("01", "AUDIO", 100)];
    assert!(hash_file_tracks(&data, &late).is_empty());
}

#[test]
fn track_analysis_reads_back_what_was_inserted() {
    let mut e = EnrichedCue::new(empty_sheet(Vec::new()));
    assert!(e.track_analysis("01").is_none());
    e.insert_track_analysis("01".to_string(), TrackAnalysis { sha1: "AA".to_string(), size: 3 });
    e.insert_track_analysis("02".to_string(), TrackAnalysis { sha1: "BB".to_string(), size: 4 });
    e.insert_track_analysis("01".to_string(), TrackAnalysis { sha1: "CC".to_string(), size: 5 });
    let a = e.track_analysis("01").unwrap();
    assert_eq!((a.sha1.as_str(), a.size), ("CC", 5));
    let b = e.track_analysis("02").unwrap();
    assert_eq!((b.sha1.as_str(), b.size), ("BB", 4));
    assert_eq!(e.track_analyses.len(), 2);
}

#[test]
fn enriched_sheet_is_written_in_cue_syntax() {
    let data: Vec<u8> = vec![1u8; 2352];
    let mut t = track("01", "MODE1/2352", 0);
    t.title = Some("Intro \"One\"".to_string());
    t.flags = vec!["DCP".to_string(), "PRE".to_string()];
    t.pregap = Some(150);
    let sheet = empty_sheet(vec![CueSheetFile {
        file: "game.bin".to_string(),
        format: "BINARY".to_string(),
        tracks: vec![t],
    }]);
    let hashes = hash_file_tracks(&data, &sheet.files[0].tracks);
    let mut analysis = DiscAnalysis::empty();
    analysis.console = Some("Sega CD".to_string());
    analysis.title = Some("DISC".to_string());
    let e = enrich_cue(sheet, analysis, &hashes);
    let sha = format_sha1(&compute_hashes(&data).sha1);
    let expected = format!(
        "REM CONSOLE Sega CD\nTITLE \"DISC\"\nFILE \"game.bin\" BINARY\n  TRACK 01 MODE1/2352\n    TITLE \"Intro \\\"One\\\"\"\n    FLAGS DCP PRE\n    REM SHA1 {}\n    REM SIZE 2352\n    PREGAP 00:02:00\n    INDEX 01 00:00:00\n",
        sha
    );
    assert_eq!(e.serialize(), expected);
}

#[test]
fn disc_analysis_of_blank_data_is_empty() {
    let a = detect_disc(&vec![0u8; 0x10000]);
    assert!(a.console.is_none() && a.title.is_none() && a.region.is_none());
    assert!(a.product_code.is_none());
    assert!(a.disc_sha1.is_none());
}

#[test]
fn game_names_and_years() {
    assert_eq!(build_game_name("stem", Some("Game"), Some("USA"), Some("Rev 1")), "Game (USA) (Rev 1)");
    assert_eq!(build_game_name("stem", Some(""), None, None), "stem");
    assert_eq!(build_game_name("stem", None, Some("Japan"), None), "stem (Japan)");
    assert_eq!(str_prefix("1995-03-01", 4), Some("1995".to_string()));
    assert_eq!(str_prefix("1é95", 4), Some("1é9".to_string()));
    assert_eq!(str_prefix("aé", 2), None);
    assert_eq!(str_prefix("abc", 4), None);
}

#[test]
fn nes_header_only_for_ines_data() {
    let mut rom = vec![0u8; 32];
    rom[..4].copy_from_slice(&[0x4E, 0x45, 0x53, 0x1A]);
    rom[4] = 2;
    let h = nes_header(&rom).unwrap();
    assert_eq!(&h[..], &rom[..16]);
    assert!(nes_header(&rom[..15]).is_none());
    assert!(nes_header(&[0u8; 32]).is_none());
}

#[test]
fn cue_tracks_become_numbered_roms() {
    let data = vec![5u8; 2352 * 2];
    let tracks = vec![track("1", "AUDIO", 0), track("x", "AUDIO", 1)];
    let hashes = hash_file_tracks(&data, &tracks);
    let roms = cue_track_roms(&hashes, Some("T-123".to_string()));
    assert_eq!(roms.len(), 2);
    assert_eq!(roms[0].name, "Track 01.bin");
    assert_eq!(roms[0].serial.as_deref(), Some("T-123"));
    assert_eq!(roms[1].name, "Track 00.bin");
    assert_eq!(roms[1].serial, None);
    assert_eq!(roms[1].size, 2352);
}

#[test]
fn dat_catalogue_text() {
    let rom = RomEntry {
        name: "a&b.bin".to_string(),
        size: 3,
        hashes: compute_hashes(b"abc"),
        header: None,
        serial: Some("S1".to_string()),
    };
    let game = GameEntry {
        name: "Game <1>".to_string(),
        description: "Game".to_string(),
        year: Some("1995".to_string()),
        manufacturer: None,
        releases: vec![ReleaseEntry { region: "USA".to_string(), date: None }],
        roms: vec![rom],
        system: None,
    };
    let text = serialize_dat(&[game]);
    assert!(text.starts_with("<?xml version=\"1.0\" encoding=\"UTF-8\"?>\n<datafile"));
    assert!(text.contains("\t<game name=\"Game &lt;1&gt;\">\n\t\t<category>Games</category>\n\t\t<description>Game</description>\n\t\t<year>1995</year>\n\t\t<release name=\"Game &lt;1&gt;\" region=\"USA\"/>\n"));
    assert!(text.contains("\t\t<rom name=\"a&amp;b.bin\" size=\"3\" crc=\"352441c2\" md5=\"900150983cd24fb0d6963f7d28e17f72\" sha1=\"a9993e364706816aba3e25717850c26c9cd0d89d\" sha256=\"ba7816bf8f01cfea414140de5dae2223b00361a396177a9cb410ff61f20015ad\" serial=\"S1\"/>\n"));
    assert!(text.contains("\t\t<version>0.1.0</version>\n\t</header>\n\t<game name="));
    assert!(text.ends_with("\t</game>\n</datafile>\n"));
}

#[test]
fn empty_dat_catalogue_is_whole() {
    let text = serialize_dat(&[]);
    assert_eq!(
        text,
        "<?xml version=\"1.0\" encoding=\"UTF-8\"?>\n\
<datafile xmlns:xsi=\"http://www.w3.org/2001/XMLSchema-instance\" xsi:schemaLocation=\"https://www.logiqx.com/Dats/datafile.xsd\">\n\
\t<header>\n\
\t\t<name>retrospector</name>\n\
\t\t<description>Generated by retrospector</description>\n\
\t\t<version>0.1.0</version>\n\
\t</header>\n\
</datafile>\n"
    );
}

#[test]
fn snes_checksum_whole_power_of_two_file_is_summed_once() {
    assert_eq!(snes_checksum(&[1u8, 2], 4), 3);
    assert_eq!(snes_checksum(&[1u8, 2, 3, 4], 16), 10);
}

#[test]
fn snes_checksum_mirrors_part_past_largest_power_of_two() {
    // Base [1, 2], remainder [3] counted (4 - 2) / 1 = 2 times.
    assert_eq!(snes_checksum(&[1u8, 2, 3], 4), 9);
}

#[test]
fn fds_header_without_room_is_too_small() {
    assert_eq!(FdsRomInfo::try_from(b"FDS\x1A").err(), Some(ParseError::BufferTooSmall));
    let mut short = b"FDS\x1A".to_vec();
    short.extend_from_slice(&[0u8; 8]);
    assert_eq!(FdsRomInfo::try_from(&short).err(), Some(ParseError::BufferTooSmall));
}

#[test]
fn n64_magic_without_header_is_too_small() {
    let buf = [0x80u8, 0x37, 0x12, 0x40, 0, 0, 0, 0];
    assert_eq!(N64RomInfo::try_from(&buf).err(), Some(ParseError::BufferTooSmall));
}

#[test]
fn detection_goes_on_past_a_short_fds_header() {
    let buf = b"FDS\x1Aabc";
    assert!(detection_is_defined(buf, false));
    assert!(detection_is_defined(buf, true));
    assert!(detect_rom(buf).is_none());
    assert!(detect_rom_with_generic_fallback(buf).is_none());
}

#[test]
fn limit_warnings_follow_mapper_limits() {
    let mut prg = vec![0u8; 64 * 1024];
    prg[1] = 1;
    let mut chr = vec![0u8; 16 * 1024];
    chr[1] = 1;
    // NROM allows 32 KiB PRG and 8 KiB CHR.
    let a = analyze(&prg, Some(&chr), &Mapper::NROM);
    assert!(a.warnings.contains(&AnalysisWarning::PrgTooLarge { mapper_max_kb: 32, actual_kb: 64 }));
    assert!(a.warnings.contains(&AnalysisWarning::ChrTooLarge { mapper_max_kb: 8, actual_kb: 16 }));
    assert!(!a.warnings.contains(&AnalysisWarning::UnexpectedChrRom));
    // UxROM has CHR-RAM only.
    let b = analyze(&prg[..32 * 1024], Some(&chr), &Mapper::UxROM);
    assert!(b.warnings.contains(&AnalysisWarning::UnexpectedChrRom));
    // No known limits: no limit warnings.
    let c = analyze(&prg, Some(&chr), &Mapper::Unrecognized);
    assert!(c.warnings.is_empty());
}

#[test]
fn publisher_from_formatted_t_codes() {
    for n in [12u16, 120, 1, 9999] {
        let text = format!("(C)T-{} 1993.SEP", n);
        assert_eq!(publisher_from_copyright(&text), lookup_publisher(n));
        let bare = format!("(C)T-{}", n);
        assert_eq!(publisher_from_copyright(&bare), lookup_publisher(n));
    }
    assert_eq!(publisher_from_copyright("(C)T-12 1993.SEP"), Some("Capcom"));
}

#[test]
fn crc32_matches_catalogue_check_value() {
    assert_eq!(compute_hashes(b"123456789").crc32, 0xCBF4_3926);
}

#[test]
fn plain_iso_image_only_through_fallback() {
    let mut buf = vec![0u8; 0x8000 + 0x800];
    buf[0x8000..0x8006].copy_from_slice(&[1, b'C', b'D', b'0', b'0', b'1']);
    assert!(detection_is_defined(&buf, false));
    assert!(detect_rom(&buf).is_none());
    assert!(matches!(detect_rom_with_generic_fallback(&buf), Some(DetectedRom::Iso(_))));
}
