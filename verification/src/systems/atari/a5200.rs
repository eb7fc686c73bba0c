//! Atari 5200 cartridges: raw dumps recognised by their start vector and
//! hardware register writes, or CAR images with a typed header.

use crate::bytes::{matches_at, read_u16_le, read_u32_be, spec_matches_at, spec_u16_le, spec_u32_be};
use crate::ext::{compute_sha1, spec_sha1, string_from_chars};
use crate::systems::helpers::{non_empty, spec_non_empty};
use crate::text::{trim_both_chars, trim_ws, CharClass};
use crate::traits::{opt_view, DatMeta, ParseError, RomHash, RomInfo, Title};
use crate::report::{push_dec, push_sha1, push_title_line, sha1_text, title_line};
use crate::text::{append_str, spec_decimal};
use vstd::prelude::*;

verus! {

/// `CART`.
pub open spec fn spec_car_magic() -> Seq<u8> {
    seq![0x43u8, 0x41, 0x52, 0x54]
}

fn car_magic() -> (r: [u8; 4])
    ensures
        r@ == spec_car_magic(),
{
    let r: [u8; 4] = [0x43, 0x41, 0x52, 0x54];
    assert(r@ =~= spec_car_magic());
    r
}

/// The CAR cartridge types that are 5200 cartridges.
pub open spec fn is_5200_cart_type(t: u32) -> bool {
    t == 4 || t == 6 || t == 7 || t == 16 || t == 19 || t == 20 || t == 71 || t == 72 || t == 73
        || t == 74 || t == 159
}

/// The raw dump sizes of 5200 cartridges.
pub open spec fn is_5200_raw_size(len: nat) -> bool {
    len == 0x1000 || len == 0x2000 || len == 0x4000 || len == 0x8000 || len == 0xA000
}

/// The character of an ANTIC screen code: the inverse bit dropped, the low
/// six bits shifted into printable ASCII.
pub open spec fn spec_antic_to_ascii(code: u8) -> char {
    ((code % 64) + 32) as char
}

pub fn antic_to_ascii(code: u8) -> (r: char)
    ensures
        r == spec_antic_to_ascii(code),
{
    ((code % 64) + 32) as char
}

/// A title in ANTIC screen codes, decoded and trimmed.
pub open spec fn spec_antic_title(bytes: Seq<u8>) -> Seq<char> {
    trim_ws(bytes.map_values(|b: u8| spec_antic_to_ascii(b)))
}

pub fn extract_antic_title(bytes: &[u8]) -> (r: String)
    ensures
        r@ == spec_antic_title(bytes@),
{
    let mut chars: Vec<char> = Vec::new();
    let mut i: usize = 0;
    while i < bytes.len()
        invariant
            i <= bytes.len(),
            chars@ == bytes@.take(i as int).map_values(|b: u8| spec_antic_to_ascii(b)),
        decreases bytes.len() - i,
    {
        chars.push(antic_to_ascii(bytes[i]));
        i += 1;
        assert(chars@ =~= bytes@.take(i as int).map_values(|b: u8| spec_antic_to_ascii(b)));
    }
    assert(bytes@.take(i as int) =~= bytes@);
    let trimmed = trim_both_chars(&chars, CharClass::Whitespace);
    string_from_chars(&trimmed)
}

/// The title of a ROM: 20 ANTIC-coded bytes ending 4 bytes before its end.
pub open spec fn spec_title_from_rom(rom: Seq<u8>) -> Seq<char> {
    if rom.len() < 24 {
        Seq::empty()
    } else {
        spec_antic_title(rom.subrange(rom.len() - 24, rom.len() - 4))
    }
}

pub fn extract_title_from_rom(rom: &[u8]) -> (r: String)
    ensures
        r@ == spec_title_from_rom(rom@),
{
    let len = rom.len();
    if len < 24 {
        return String::new();
    }
    let field = &rom[len - 24..len - 4];
    assert(field@ =~= rom@.subrange(len - 24, len - 4));
    extract_antic_title(field)
}

/// Some absolute store (`STA abs`, 0x8D) writes to register page `page`.
pub open spec fn a5200_has_sta(b: Seq<u8>, page: u8) -> bool {
    exists|i: int| 0 <= i && i + 2 < b.len() && #[trigger] b[i] == 0x8D && b[i + 2] == page
}

fn has_sta(b: &[u8], page: u8) -> (r: bool)
    ensures
        r == a5200_has_sta(b@, page),
{
    if b.len() < 3 {
        return false;
    }
    let mut i: usize = 0;
    while i + 2 < b.len()
        invariant
            b.len() >= 3,
            i + 2 <= b.len(),
            forall|j: int| 0 <= j < i ==> !(#[trigger] b@[j] == 0x8D && b@[j + 2] == page),
        decreases b.len() - i,
    {
        if b[i] == 0x8D && b[i + 2] == page {
            return true;
        }
        i += 1;
    }
    false
}

/// The range the start vector of a raw dump of `len` bytes must fall in.
pub open spec fn a5200_vector_range(len: nat) -> (u16, u16) {
    if len == 0x2000 {
        (0xA000, 0xBFFF)
    } else if len == 0x1000 {
        (0xB000, 0xBFFF)
    } else {
        (0x4000, 0xBFFF)
    }
}

/// How many of ANTIC, GTIA and POKEY are written to.
pub open spec fn a5200_hw_count(b: Seq<u8>) -> nat {
    (if a5200_has_sta(b, 0xD4) {
        1nat
    } else {
        0nat
    }) + (if a5200_has_sta(b, 0xC0) {
        1nat
    } else {
        0nat
    }) + (if a5200_has_sta(b, 0xE8) {
        1nat
    } else {
        0nat
    })
}

/// A CAR image: the header and magic.
pub open spec fn a5200_is_car(b: Seq<u8>) -> bool {
    b.len() >= 16 && spec_matches_at(b, 0, spec_car_magic())
}

/// The error a parse fails with, when it fails.
pub open spec fn a5200_parse_error(b: Seq<u8>) -> Option<ParseError> {
    if a5200_is_car(b) {
        if is_5200_cart_type(spec_u32_be(b, 4)) {
            None
        } else {
            Some(ParseError::MagicNotFound)
        }
    } else if !is_5200_raw_size(b.len()) {
        Some(ParseError::BufferTooSmall)
    } else {
        let v = spec_u16_le(b, b.len() - 2);
        let (lo, hi) = a5200_vector_range(b.len());
        if v < lo || v > hi {
            Some(ParseError::MagicNotFound)
        } else if a5200_hw_count(b) < 2 {
            Some(ParseError::MagicNotFound)
        } else {
            None
        }
    }
}

/// A parsed Atari 5200 cartridge.
pub struct Atari5200Info {
    pub title: String,
    pub cart_type: Option<u32>,
    pub has_car_header: bool,
    pub rom_sha1: [u8; 20],
}

/// What a successful parse reads from the buffer.
pub open spec fn a5200_info_matches(b: Seq<u8>, info: Atari5200Info) -> bool {
    if a5200_is_car(b) {
        &&& info.title@ == spec_title_from_rom(b.skip(16))
        &&& info.cart_type == Some(spec_u32_be(b, 4))
        &&& info.has_car_header
        &&& info.rom_sha1@ == spec_sha1(b.skip(16))
    } else {
        &&& info.title@ == spec_title_from_rom(b)
        &&& info.cart_type is None
        &&& !info.has_car_header
        &&& info.rom_sha1@ == spec_sha1(b)
    }
}

impl Atari5200Info {
    /// Parse an Atari 5200 image, CAR-headed or raw.
    pub fn try_from(buffer: &[u8]) -> (r: Result<Atari5200Info, ParseError>)
        ensures
            match r {
                Ok(info) => a5200_parse_error(buffer@) is None && a5200_info_matches(buffer@, info),
                Err(e) => a5200_parse_error(buffer@) == Some(e),
            },
    {
        let magic = car_magic();
        if buffer.len() >= 16 && matches_at(buffer, 0, magic.as_slice()) {
            let cart_type = read_u32_be(buffer, 4);
            if cart_type == 4 || cart_type == 6 || cart_type == 7 || cart_type == 16 || cart_type
                == 19 || cart_type == 20 || cart_type == 71 || cart_type == 72 || cart_type == 73
                || cart_type == 74 || cart_type == 159 {
                let rom_data = &buffer[16..buffer.len()];
                assert(rom_data@ =~= buffer@.skip(16));
                let title = extract_title_from_rom(rom_data);
                let rom_sha1 = compute_sha1(rom_data);
                return Ok(
                    Atari5200Info {
                        title,
                        cart_type: Some(cart_type),
                        has_car_header: true,
                        rom_sha1,
                    },
                );
            }
            return Err(ParseError::MagicNotFound);
        }
        let len = buffer.len();
        if !(len == 0x1000 || len == 0x2000 || len == 0x4000 || len == 0x8000 || len == 0xA000) {
            return Err(ParseError::BufferTooSmall);
        }
        let start_vector = read_u16_le(buffer, len - 2);
        let (min_addr, max_addr): (u16, u16) = if len == 0x2000 {
            (0xA000, 0xBFFF)
        } else if len == 0x1000 {
            (0xB000, 0xBFFF)
        } else {
            (0x4000, 0xBFFF)
        };
        if start_vector < min_addr || start_vector > max_addr {
            return Err(ParseError::MagicNotFound);
        }
        let a: u8 = if has_sta(buffer, 0xD4) {
            1
        } else {
            0
        };
        let g: u8 = if has_sta(buffer, 0xC0) {
            1
        } else {
            0
        };
        let p: u8 = if has_sta(buffer, 0xE8) {
            1
        } else {
            0
        };
        if a + g + p < 2 {
            return Err(ParseError::MagicNotFound);
        }
        let rom_sha1 = compute_sha1(buffer);
        let title = extract_title_from_rom(buffer);
        Ok(Atari5200Info { title, cart_type: None, has_car_header: false, rom_sha1 })
    }
}

impl RomInfo for Atari5200Info {
    fn console(&self) -> (r: &'static str)
        ensures
            r@ == "Atari 5200"@,
    {
        "Atari 5200"
    }

    fn dat_meta(&self) -> (r: DatMeta)
        ensures
            opt_view(r.title) == spec_non_empty(self.title@),
            r.region is None,
            r.version is None,
            r.date is None,
            r.manufacturer is None,
            r.serial is None,
            r.machine_id is None,
    {
        DatMeta {
            title: non_empty(self.title.as_str()),
            region: None,
            version: None,
            date: None,
            manufacturer: None,
            serial: None,
            machine_id: None,
        }
    }
}

impl RomHash for Atari5200Info {
    fn sha1(&self) -> (r: [u8; 20])
        ensures
            r@ == self.rom_sha1@,
    {
        self.rom_sha1
    }
}

impl Title for Atari5200Info {
    fn title(&self) -> (r: &str)
        ensures
            r@ == self.title@,
    {
        self.title.as_str()
    }
}

// ---------------------------------------------------------------------------
// Report
// ---------------------------------------------------------------------------

/// The report of an Atari 5200 cartridge.
pub open spec fn a5200_report(i: Atari5200Info) -> Seq<char> {
    (if i.title@.len() > 0 {
        title_line(i.title@)
    } else {
        Seq::empty()
    }) + match i.cart_type {
        Some(c) => "Cart Type: "@ + spec_decimal(c as nat) + "\n"@,
        None => Seq::empty(),
    } + (if i.has_car_header {
        "Format: CAR (headered)\n"@
    } else {
        Seq::empty()
    }) + sha1_text(i.rom_sha1@) + "\n"@
}

impl Atari5200Info {
    /// The report the inspector prints for the cartridge.
    pub fn describe(&self) -> (r: String)
        ensures
            r@ == a5200_report(*self),
    {
        let mut t: Vec<char> = Vec::new();
        if !self.title.as_str().is_empty() {
            push_title_line(&mut t, self.title.as_str());
        }
        if let Some(c) = self.cart_type {
            append_str(&mut t, "Cart Type: ");
            push_dec(&mut t, c as u64);
            append_str(&mut t, "\n");
        }
        if self.has_car_header {
            append_str(&mut t, "Format: CAR (headered)\n");
        }
        push_sha1(&mut t, &self.rom_sha1);
        append_str(&mut t, "\n");
        assert(t@ =~= a5200_report(*self));
        string_from_chars(&t)
    }
}

} // verus!
