//! The Sega IP.BIN header of Saturn and Dreamcast discs: it starts the user
//! data of sector 0, after the sector header in raw images.

use super::sector::{
    detect_sector_format, sector_data_offset, spec_detect_sector_format, spec_sector_data_offset,
};
use crate::bytes::{matches_at, spec_matches_at};
use crate::ext::string_from_chars;
use crate::text::chars_of;
use crate::text::{
    append_chars, append_str, char_seqs, field_text, join_chars, join_with, spec_field_text, str_contains,
};
use crate::traits::opt_view;
use vstd::prelude::*;

verus! {

/// `SEGA SEGASATURN `.
pub open spec fn spec_saturn_magic() -> Seq<u8> {
    seq![
        0x53u8, 0x45, 0x47, 0x41, 0x20, 0x53, 0x45, 0x47, 0x41, 0x53, 0x41, 0x54, 0x55, 0x52, 0x4E,
        0x20,
    ]
}

/// `SEGA SEGAKATANA `.
pub open spec fn spec_dreamcast_magic() -> Seq<u8> {
    seq![
        0x53u8, 0x45, 0x47, 0x41, 0x20, 0x53, 0x45, 0x47, 0x41, 0x4B, 0x41, 0x54, 0x41, 0x4E, 0x41,
        0x20,
    ]
}

pub fn saturn_magic() -> (r: [u8; 16])
    ensures
        r@ == spec_saturn_magic(),
{
    let r: [u8; 16] = [
        0x53,
        0x45,
        0x47,
        0x41,
        0x20,
        0x53,
        0x45,
        0x47,
        0x41,
        0x53,
        0x41,
        0x54,
        0x55,
        0x52,
        0x4E,
        0x20,
    ];
    assert(r@ =~= spec_saturn_magic());
    r
}

pub fn dreamcast_magic() -> (r: [u8; 16])
    ensures
        r@ == spec_dreamcast_magic(),
{
    let r: [u8; 16] = [
        0x53,
        0x45,
        0x47,
        0x41,
        0x20,
        0x53,
        0x45,
        0x47,
        0x41,
        0x4B,
        0x41,
        0x54,
        0x41,
        0x4E,
        0x41,
        0x20,
    ];
    assert(r@ =~= spec_dreamcast_magic());
    r
}

/// Which console an IP.BIN belongs to.
#[derive(Debug, Clone, Copy, PartialEq, Eq, Structural)]
pub enum SegaDiscType {
    Saturn,
    Dreamcast,
}

/// The text fields of an IP.BIN header.
pub struct SegaIpBin {
    pub disc_type: Option<SegaDiscType>,
    pub maker_id: String,
    pub product_number: String,
    pub version: String,
    pub release_date: String,
    pub device_info: String,
    pub area_codes: String,
    pub peripherals: String,
    pub title: String,
    /// Dreamcast only.
    pub boot_filename: Option<String>,
    /// Dreamcast only.
    pub producer: Option<String>,
}

/// Where the user data of sector 0 starts.
pub open spec fn ip_base(b: Seq<u8>) -> int {
    spec_sector_data_offset(0, spec_detect_sector_format(b))
}

/// The start of the IP.BIN when `magic` opens the user data of sector 0.
pub open spec fn spec_find_data_start(b: Seq<u8>, magic: Seq<u8>) -> Option<int> {
    if spec_matches_at(b, ip_base(b), magic) {
        Some(ip_base(b))
    } else {
        None
    }
}

pub fn find_data_start(buffer: &[u8], magic: &[u8]) -> (r: Option<usize>)
    ensures
        match r {
            Some(o) => spec_find_data_start(buffer@, magic@) == Some(o as int),
            None => spec_find_data_start(buffer@, magic@) is None,
        },
{
    let format = detect_sector_format(buffer);
    let base = sector_data_offset(0, format);
    if matches_at(buffer, base, magic) {
        Some(base)
    } else {
        None
    }
}

/// Whether the buffer holds a Saturn IP.BIN.
pub fn is_saturn(buffer: &[u8]) -> (r: bool)
    ensures
        r == spec_find_data_start(buffer@, spec_saturn_magic()) is Some,
{
    let m = saturn_magic();
    find_data_start(buffer, m.as_slice()).is_some()
}

/// Whether the buffer holds a Dreamcast IP.BIN.
pub fn is_dreamcast(buffer: &[u8]) -> (r: bool)
    ensures
        r == spec_find_data_start(buffer@, spec_dreamcast_magic()) is Some,
{
    let m = dreamcast_magic();
    find_data_start(buffer, m.as_slice()).is_some()
}

pub open spec fn is_digit(c: char) -> bool {
    '0' <= c <= '9'
}

/// The value of two decimal digit characters.
pub open spec fn two_digits(a: char, b: char) -> int {
    (a as int - '0' as int) * 10 + (b as int - '0' as int)
}

/// An eight-digit date as `YYYY-MM-DD`: read as YYYYMMDD when the month is
/// 1-12, else as MMDDYYYY when that month is; other text unchanged.
pub open spec fn spec_format_date(s: Seq<char>) -> Seq<char> {
    if s.len() == 8 && (forall|i: int| 0 <= i < 8 ==> #[trigger] is_digit(s[i])) {
        if 1 <= two_digits(s[4], s[5]) <= 12 {
            s.subrange(0, 4) + seq!['-'] + s.subrange(4, 6) + seq!['-'] + s.subrange(6, 8)
        } else if 1 <= two_digits(s[0], s[1]) <= 12 {
            s.subrange(4, 8) + seq!['-'] + s.subrange(0, 2) + seq!['-'] + s.subrange(2, 4)
        } else {
            s
        }
    } else {
        s
    }
}

fn push_range(dst: &mut Vec<char>, src: &Vec<char>, lo: usize, hi: usize)
    requires
        lo <= hi <= src.len(),
    ensures
        final(dst)@ == old(dst)@ + src@.subrange(lo as int, hi as int),
{
    let mut i = lo;
    while i < hi
        invariant
            lo <= i <= hi <= src.len(),
            dst@ == old(dst)@ + src@.subrange(lo as int, i as int),
        decreases hi - i,
    {
        dst.push(src[i]);
        i += 1;
        assert(dst@ =~= old(dst)@ + src@.subrange(lo as int, i as int));
    }
}

pub fn format_date(raw: &str) -> (r: String)
    ensures
        r@ == spec_format_date(raw@),
{
    let s = chars_of(raw);
    if s.len() != 8 {
        return String::from_str(raw);
    }
    let mut i: usize = 0;
    while i < 8
        invariant
            s.len() == 8,
            s@ == raw@,
            i <= 8,
            forall|j: int| 0 <= j < i ==> #[trigger] is_digit(s@[j]),
        decreases 8 - i,
    {
        if !('0' <= s[i] && s[i] <= '9') {
            assert(!is_digit(s@[i as int]));
            return String::from_str(raw);
        }
        i += 1;
    }
    assert(is_digit(s@[0]) && is_digit(s@[1]) && is_digit(s@[4]) && is_digit(s@[5]));
    let m1 = ((s[4] as u32) - 48) * 10 + ((s[5] as u32) - 48);
    let m2 = ((s[0] as u32) - 48) * 10 + ((s[1] as u32) - 48);
    let mut out: Vec<char> = Vec::new();
    if 1 <= m1 && m1 <= 12 {
        push_range(&mut out, &s, 0, 4);
        out.push('-');
        push_range(&mut out, &s, 4, 6);
        out.push('-');
        push_range(&mut out, &s, 6, 8);
    } else if 1 <= m2 && m2 <= 12 {
        push_range(&mut out, &s, 4, 8);
        out.push('-');
        push_range(&mut out, &s, 0, 2);
        out.push('-');
        push_range(&mut out, &s, 2, 4);
    } else {
        return String::from_str(raw);
    }
    string_from_chars(&out)
}

/// What a Saturn parse reads, from the IP.BIN at `base`.
pub open spec fn saturn_ip_matches(b: Seq<u8>, base: int, ip: SegaIpBin) -> bool {
    &&& ip.disc_type == Some(SegaDiscType::Saturn)
    &&& ip.maker_id@ == spec_field_text(b, base + 0x10, 16)
    &&& ip.product_number@ == spec_field_text(b, base + 0x20, 10)
    &&& ip.version@ == spec_field_text(b, base + 0x2A, 6)
    &&& ip.release_date@ == spec_format_date(spec_field_text(b, base + 0x30, 8))
    &&& ip.device_info@ == spec_field_text(b, base + 0x38, 8)
    &&& ip.area_codes@ == spec_field_text(b, base + 0x40, 10)
    &&& ip.peripherals@ == spec_field_text(b, base + 0x50, 16)
    &&& ip.title@ == spec_field_text(b, base + 0x60, 112)
    &&& ip.boot_filename is None
    &&& ip.producer is None
}

/// Parse a Saturn IP.BIN: `None` without the magic or without the 0xD0
/// header bytes.
pub fn parse_saturn_ip(buffer: &[u8]) -> (r: Option<SegaIpBin>)
    ensures
        match r {
            Some(ip) => spec_find_data_start(buffer@, spec_saturn_magic()) matches Some(base)
                && buffer@.len() >= base + 0xD0 && saturn_ip_matches(buffer@, base, ip),
            None => !(spec_find_data_start(buffer@, spec_saturn_magic()) matches Some(base)
                && buffer@.len() >= base + 0xD0),
        },
{
    let m = saturn_magic();
    let base = match find_data_start(buffer, m.as_slice()) {
        Some(b) => b,
        None => {
            return None;
        },
    };
    if buffer.len() < base || buffer.len() - base < 0xD0 {
        return None;
    }
    let date = field_text(buffer, base + 0x30, 8);
    Some(
        SegaIpBin {
            disc_type: Some(SegaDiscType::Saturn),
            maker_id: field_text(buffer, base + 0x10, 16),
            product_number: field_text(buffer, base + 0x20, 10),
            version: field_text(buffer, base + 0x2A, 6),
            release_date: format_date(date.as_str()),
            device_info: field_text(buffer, base + 0x38, 8),
            area_codes: field_text(buffer, base + 0x40, 10),
            peripherals: field_text(buffer, base + 0x50, 16),
            title: field_text(buffer, base + 0x60, 112),
            boot_filename: None,
            producer: None,
        },
    )
}

/// What a Dreamcast parse reads, from the IP.BIN at `base`.
pub open spec fn dreamcast_ip_matches(b: Seq<u8>, base: int, ip: SegaIpBin) -> bool {
    &&& ip.disc_type == Some(SegaDiscType::Dreamcast)
    &&& ip.maker_id@ == spec_field_text(b, base + 0x10, 16)
    &&& ip.device_info@ == spec_field_text(b, base + 0x20, 16)
    &&& ip.area_codes@ == spec_field_text(b, base + 0x30, 8)
    &&& ip.peripherals@ == spec_field_text(b, base + 0x38, 8)
    &&& ip.product_number@ == spec_field_text(b, base + 0x40, 10)
    &&& ip.version@ == spec_field_text(b, base + 0x4A, 6)
    &&& ip.release_date@ == spec_field_text(b, base + 0x50, 16)
    &&& opt_view(ip.boot_filename) == Some(spec_field_text(b, base + 0x60, 16))
    &&& opt_view(ip.producer) == Some(spec_field_text(b, base + 0x70, 16))
    &&& ip.title@ == spec_field_text(b, base + 0x80, 128)
}

/// Parse a Dreamcast IP.BIN: `None` without the magic or without the 0x100
/// header bytes.
pub fn parse_dreamcast_ip(buffer: &[u8]) -> (r: Option<SegaIpBin>)
    ensures
        match r {
            Some(ip) => spec_find_data_start(buffer@, spec_dreamcast_magic()) matches Some(base)
                && buffer@.len() >= base + 0x100 && dreamcast_ip_matches(buffer@, base, ip),
            None => !(spec_find_data_start(buffer@, spec_dreamcast_magic()) matches Some(base)
                && buffer@.len() >= base + 0x100),
        },
{
    let m = dreamcast_magic();
    let base = match find_data_start(buffer, m.as_slice()) {
        Some(b) => b,
        None => {
            return None;
        },
    };
    if buffer.len() < base || buffer.len() - base < 0x100 {
        return None;
    }
    Some(
        SegaIpBin {
            disc_type: Some(SegaDiscType::Dreamcast),
            maker_id: field_text(buffer, base + 0x10, 16),
            device_info: field_text(buffer, base + 0x20, 16),
            area_codes: field_text(buffer, base + 0x30, 8),
            peripherals: field_text(buffer, base + 0x38, 8),
            product_number: field_text(buffer, base + 0x40, 10),
            version: field_text(buffer, base + 0x4A, 6),
            release_date: field_text(buffer, base + 0x50, 16),
            boot_filename: Some(field_text(buffer, base + 0x60, 16)),
            producer: Some(field_text(buffer, base + 0x70, 16)),
            title: field_text(buffer, base + 0x80, 128),
        },
    )
}

/// One catalogue region for area codes: J, U and E together are World;
/// Japan wins among NTSC codes, Europe for U with E; `None` without any of them.
pub open spec fn spec_dat_region(j: bool, u: bool, e: bool) -> Option<Seq<char>> {
    if j && u && e {
        Some("World"@)
    } else if j {
        Some("Japan"@)
    } else if u && e {
        Some("Europe"@)
    } else if u {
        Some("USA"@)
    } else if e {
        Some("Europe"@)
    } else {
        None
    }
}

pub fn dat_region_from_area_codes(area_codes: &str) -> (r: Option<String>)
    ensures
        opt_view(r) == spec_dat_region(
            area_codes@.contains('J'),
            area_codes@.contains('U'),
            area_codes@.contains('E'),
        ),
{
    let j = str_contains(area_codes, 'J');
    let u = str_contains(area_codes, 'U');
    let e = str_contains(area_codes, 'E');
    if j && u && e {
        Some(String::from_str("World"))
    } else if j {
        Some(String::from_str("Japan"))
    } else if u && e {
        Some(String::from_str("Europe"))
    } else if u {
        Some(String::from_str("USA"))
    } else if e {
        Some(String::from_str("Europe"))
    } else {
        None
    }
}

/// The region name of a Saturn area code character.
pub open spec fn saturn_region_name(c: char) -> Option<Seq<char>> {
    if c == 'J' {
        Some("Japan"@)
    } else if c == 'T' {
        Some("Taiwan/Korea"@)
    } else if c == 'U' {
        Some("North America"@)
    } else if c == 'B' {
        Some("Brazil"@)
    } else if c == 'K' {
        Some("Korea"@)
    } else if c == 'A' {
        Some("Asia (PAL)"@)
    } else if c == 'E' {
        Some("Europe"@)
    } else if c == 'L' {
        Some("Latin America"@)
    } else {
        None
    }
}

/// The region name of a Dreamcast area symbol.
pub open spec fn dreamcast_region_name(c: char) -> Option<Seq<char>> {
    if c == 'J' {
        Some("Japan"@)
    } else if c == 'U' {
        Some("North America"@)
    } else if c == 'E' {
        Some("Europe"@)
    } else {
        None
    }
}

/// The names of the recognised codes of `s`, in order (`dreamcast` picks the table).
pub open spec fn region_names(s: Seq<char>, dreamcast: bool) -> Seq<Seq<char>>
    decreases s.len(),
{
    if s.len() == 0 {
        Seq::empty()
    } else {
        let r = region_names(s.drop_last(), dreamcast);
        let n = if dreamcast {
            dreamcast_region_name(s.last())
        } else {
            saturn_region_name(s.last())
        };
        match n {
            Some(name) => r.push(name),
            None => r,
        }
    }
}

/// The names joined with `", "`, or `Unknown` when no code is recognised.
pub open spec fn spec_decode_regions(s: Seq<char>, dreamcast: bool) -> Seq<char> {
    let names = region_names(s, dreamcast);
    if names.len() == 0 {
        "Unknown"@
    } else {
        join_with(names, ", "@)
    }
}

fn region_name(c: char, dreamcast: bool) -> (r: Option<&'static str>)
    ensures
        match r {
            Some(s) => (if dreamcast {
                dreamcast_region_name(c)
            } else {
                saturn_region_name(c)
            }) == Some(s@),
            None => (if dreamcast {
                dreamcast_region_name(c)
            } else {
                saturn_region_name(c)
            }) is None,
        },
{
    if dreamcast {
        if c == 'J' {
            Some("Japan")
        } else if c == 'U' {
            Some("North America")
        } else if c == 'E' {
            Some("Europe")
        } else {
            None
        }
    } else {
        if c == 'J' {
            Some("Japan")
        } else if c == 'T' {
            Some("Taiwan/Korea")
        } else if c == 'U' {
            Some("North America")
        } else if c == 'B' {
            Some("Brazil")
        } else if c == 'K' {
            Some("Korea")
        } else if c == 'A' {
            Some("Asia (PAL)")
        } else if c == 'E' {
            Some("Europe")
        } else if c == 'L' {
            Some("Latin America")
        } else {
            None
        }
    }
}

fn decode_regions_with(codes: &str, dreamcast: bool) -> (r: String)
    ensures
        r@ == spec_decode_regions(codes@, dreamcast),
{
    let chars = chars_of(codes);
    let mut names: Vec<Vec<char>> = Vec::new();
    let mut i: usize = 0;
    while i < chars.len()
        invariant
            i <= chars.len(),
            chars@ == codes@,
            char_seqs(names@) == region_names(chars@.take(i as int), dreamcast),
        decreases chars.len() - i,
    {
        assert(chars@.take(i + 1).drop_last() =~= chars@.take(i as int));
        assert(chars@.take(i + 1).last() == chars@[i as int]);
        match region_name(chars[i], dreamcast) {
            Some(n) => {
                let v = chars_of(n);
                names.push(v);
                assert(char_seqs(names@) =~= region_names(chars@.take(i + 1), dreamcast));
            },
            None => {},
        }
        i += 1;
    }
    assert(chars@.take(i as int) =~= chars@);
    if names.len() == 0 {
        String::from_str("Unknown")
    } else {
        let joined = join_chars(&names, ", ");
        string_from_chars(&joined)
    }
}

/// Saturn area codes as region names, comma-separated.
pub fn decode_saturn_regions(area_codes: &str) -> (r: String)
    ensures
        r@ == spec_decode_regions(area_codes@, false),
{
    decode_regions_with(area_codes, false)
}

/// Dreamcast area symbols as region names, comma-separated.
pub fn decode_dreamcast_regions(area_symbols: &str) -> (r: String)
    ensures
        r@ == spec_decode_regions(area_symbols@, true),
{
    decode_regions_with(area_symbols, true)
}

// ---------------------------------------------------------------------------
// Report
// ---------------------------------------------------------------------------

/// A labelled line when the value is not empty.
pub open spec fn nonempty_line(label: Seq<char>, v: Seq<char>) -> Seq<char> {
    if v.len() > 0 {
        label + v + "\n"@
    } else {
        Seq::empty()
    }
}

/// A labelled line when the value is present and not empty.
pub open spec fn opt_nonempty_line(label: Seq<char>, v: Option<Seq<char>>) -> Seq<char> {
    match v {
        Some(x) => nonempty_line(label, x),
        None => Seq::empty(),
    }
}

/// The region text of an IP.BIN: the decoded area codes where the console
/// is known, else the raw codes.
pub open spec fn ip_region_text(ip: SegaIpBin) -> Seq<char> {
    match ip.disc_type {
        Some(SegaDiscType::Saturn) => spec_decode_regions(ip.area_codes@, false),
        Some(SegaDiscType::Dreamcast) => spec_decode_regions(ip.area_codes@, true),
        None => ip.area_codes@,
    }
}

/// The report of an IP.BIN.
pub open spec fn ip_report(ip: SegaIpBin) -> Seq<char> {
    "Title: "@ + ip.title@ + "\n"@ + "Product Number: "@ + ip.product_number@ + "\n"@ + "Region: "@
        + ip_region_text(ip) + "\n"@ + "Version: "@ + ip.version@ + "\n"@ + nonempty_line(
        "Maker ID: "@,
        ip.maker_id@,
    ) + nonempty_line("Release Date: "@, ip.release_date@) + nonempty_line(
        "Device Info: "@,
        ip.device_info@,
    ) + opt_nonempty_line("Producer: "@, opt_view(ip.producer)) + opt_nonempty_line(
        "Boot File: "@,
        opt_view(ip.boot_filename),
    )
}

/// Appends a labelled line when the value is not empty.
pub fn push_nonempty_line(out: &mut Vec<char>, label: &str, v: &str)
    ensures
        final(out)@ == old(out)@ + nonempty_line(label@, v@),
{
    let mut t: Vec<char> = Vec::new();
    if !v.is_empty() {
        append_str(&mut t, label);
        append_str(&mut t, v);
        append_str(&mut t, "\n");
    }
    assert(t@ =~= nonempty_line(label@, v@));
    append_chars(out, &t);
}

fn push_opt_nonempty_line(out: &mut Vec<char>, label: &str, v: &Option<String>)
    ensures
        final(out)@ == old(out)@ + opt_nonempty_line(label@, opt_view(*v)),
{
    match v {
        Some(x) => push_nonempty_line(out, label, x.as_str()),
        None => {
            assert(old(out)@ + Seq::<char>::empty() =~= old(out)@);
        },
    }
}

impl SegaIpBin {
    /// The report the inspector prints for the IP.BIN.
    pub fn describe(&self) -> (r: String)
        ensures
            r@ == ip_report(*self),
    {
        let mut t: Vec<char> = Vec::new();
        append_str(&mut t, "Title: ");
        append_str(&mut t, self.title.as_str());
        append_str(&mut t, "\n");
        append_str(&mut t, "Product Number: ");
        append_str(&mut t, self.product_number.as_str());
        append_str(&mut t, "\n");
        append_str(&mut t, "Region: ");
        let region = match self.disc_type {
            Some(SegaDiscType::Saturn) => decode_saturn_regions(self.area_codes.as_str()),
            Some(SegaDiscType::Dreamcast) => decode_dreamcast_regions(self.area_codes.as_str()),
            None => self.area_codes.clone(),
        };
        append_str(&mut t, region.as_str());
        append_str(&mut t, "\n");
        append_str(&mut t, "Version: ");
        append_str(&mut t, self.version.as_str());
        append_str(&mut t, "\n");
        push_nonempty_line(&mut t, "Maker ID: ", self.maker_id.as_str());
        push_nonempty_line(&mut t, "Release Date: ", self.release_date.as_str());
        push_nonempty_line(&mut t, "Device Info: ", self.device_info.as_str());
        push_opt_nonempty_line(&mut t, "Producer: ", &self.producer);
        push_opt_nonempty_line(&mut t, "Boot File: ", &self.boot_filename);
        assert(t@ =~= ip_report(*self));
        string_from_chars(&t)
    }
}

} // verus!
