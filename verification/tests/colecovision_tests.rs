use retrospector::systems::colecovision::ColecoVisionInfo;

fn parse_info(raw_title: &[u8], boot_magic: [u8; 2]) -> ColecoVisionInfo {
    let mut buffer = vec![0u8; 0x1000];
    buffer[0] = boot_magic[0];
    buffer[1] = boot_magic[1];
    let start = 0x24;
    buffer[start..start + raw_title.len()].copy_from_slice(raw_title);
    match ColecoVisionInfo::try_from(buffer.as_slice()) {
        Ok(info) => info,
        Err(e) => panic!("valid test ROM should parse: {e:?}"),
    }
}

#[test]
fn title_screen_keeps_up_to_three_title_lines() {
    let info = parse_info(b"LINE ONE/LINE TWO/LINE THREE\0", [0xAA, 0x55]);
    assert_eq!(
        info.title,
        Some("LINE THREE / LINE TWO / LINE ONE".to_string())
    );
    assert_eq!(info.copyright_year, None);
}

#[test]
fn title_screen_handles_single_line_titles() {
    let info = parse_info(b"JUST ONE\0", [0xAA, 0x55]);
    assert_eq!(info.title, Some("JUST ONE".to_string()));
    assert_eq!(info.copyright_year, None);
}

#[test]
fn title_screen_skips_leading_control_bytes() {
    let info = parse_info(
        b"\x1D 1982 DAN GORLIN/BR0DERBUND'S CHOPLIFTER\x1E\x1F",
        [0xAA, 0x55],
    );
    assert_eq!(
        info.title,
        Some("BR0DERBUND'S CHOPLIFTER™ / ©1982 DAN GORLIN".to_string())
    );
    assert_eq!(info.copyright_year, None);
}

#[test]
fn title_screen_allows_tm_pair_before_delimiter() {
    let info = parse_info(b"LINE\x1E\x1F/SECOND/2026\0", [0xAA, 0x55]);
    assert_eq!(info.title, Some("SECOND / LINE™".to_string()));
    assert_eq!(info.copyright_year, Some("2026".to_string()));
}

#[test]
fn direct_boot_still_attempts_year_extraction() {
    let info = parse_info(b"LINE3/LINE2/1987\0", [0x55, 0xAA]);
    assert_eq!(info.title, None);
    assert_eq!(info.copyright_year, Some("1987".to_string()));
}
