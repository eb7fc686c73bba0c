use retrospector::systems::helpers::{decode_header_text, read_null_padded_string};

#[test]
fn null_padded_text_is_decoded_leniently() {
    assert_eq!(read_null_padded_string(b"AB\xFFC\0rest"), "AB\u{FFFD}C");
    assert_eq!(read_null_padded_string(b"\0"), "");
    assert_eq!(read_null_padded_string(b"TITLE"), "TITLE");
}

#[test]
fn header_text_falls_back_to_shift_jis() {
    // 0x83 0x41 is katakana A in Shift-JIS and not valid UTF-8.
    assert_eq!(decode_header_text(&[0x83, 0x41, 0x20, 0x00]), "ア");
}

#[test]
fn header_text_is_nfkc_normalised_and_trimmed() {
    let fullwidth = "  ＡＢ１ \0".as_bytes();
    assert_eq!(decode_header_text(fullwidth), "AB1");
}

#[test]
fn header_text_that_is_neither_encoding_is_decoded_leniently() {
    // 0xFF is invalid in both UTF-8 and Shift-JIS.
    assert_eq!(decode_header_text(&[b'A', 0xFF, b'B']), "A\u{FFFD}B");
}

#[test]
fn header_text_maps_shift_jis_single_bytes() {
    // Shift-JIS decodes 0x80 to U+0080.
    assert_eq!(decode_header_text(&[b'A', 0x80, b'B']), "A\u{80}B");
}
