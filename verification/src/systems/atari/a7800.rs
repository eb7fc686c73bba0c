//! Atari 7800 cartridges with the 128-byte A78 header.

use crate::bytes::{matches_at, read_u16_be, spec_matches_at, spec_u16_be};
use crate::ext::{compute_sha1, spec_sha1, spec_utf8_lossy, string_from_chars, utf8_lossy};
use crate::systems::helpers::{non_empty, spec_non_empty};
use crate::text::{trim_end, trim_end_chars, CharClass};
use crate::traits::{opt_view, DatMeta, ParseError, RomHash, RomInfo, Title};
use crate::report::{hex_padded, push_hex_padded, push_sha1, push_title_line, sha1_text, title_line};
use crate::text::append_str;
use vstd::prelude::*;

verus! {

/// `ATARI7800`.
pub open spec fn spec_a7800_magic() -> Seq<u8> {
    seq![0x41u8, 0x54, 0x41, 0x52, 0x49, 0x37, 0x38, 0x30, 0x30]
}

fn a7800_magic() -> (r: [u8; 9])
    ensures
        r@ == spec_a7800_magic(),
{
    let r: [u8; 9] = [0x41, 0x54, 0x41, 0x52, 0x49, 0x37, 0x38, 0x30, 0x30];
    assert(r@ =~= spec_a7800_magic());
    r
}

/// A parsed A78 header.
pub struct Atari7800Info {
    pub title: String,
    pub cart_type: u16,
    pub rom_sha1: [u8; 20],
}

/// The error a parse fails with, when it fails.
pub open spec fn a7800_parse_error(b: Seq<u8>) -> Option<ParseError> {
    if b.len() < 128 {
        Some(ParseError::BufferTooSmall)
    } else if !spec_matches_at(b, 1, spec_a7800_magic()) {
        Some(ParseError::MagicNotFound)
    } else {
        None
    }
}

/// What a successful parse reads from the buffer.
pub open spec fn a7800_info_matches(b: Seq<u8>, info: Atari7800Info) -> bool {
    &&& info.title@ == trim_end(spec_utf8_lossy(b.subrange(0x11, 0x31)), CharClass::NulOrSpace)
    &&& info.cart_type == spec_u16_be(b, 0x35)
    &&& info.rom_sha1@ == spec_sha1(b.skip(128))
}

impl Atari7800Info {
    /// Parse an A78 header: the magic, title and cartridge type, with the
    /// SHA-1 of the ROM after the header.
    pub fn try_from(buffer: &[u8]) -> (r: Result<Atari7800Info, ParseError>)
        ensures
            match r {
                Ok(info) => a7800_parse_error(buffer@) is None && a7800_info_matches(buffer@, info),
                Err(e) => a7800_parse_error(buffer@) == Some(e),
            },
    {
        if buffer.len() < 128 {
            return Err(ParseError::BufferTooSmall);
        }
        let magic = a7800_magic();
        if !matches_at(buffer, 1, magic.as_slice()) {
            return Err(ParseError::MagicNotFound);
        }
        let rom = &buffer[128..buffer.len()];
        assert(rom@ =~= buffer@.skip(128));
        let rom_sha1 = compute_sha1(rom);
        let title_bytes = &buffer[0x11..0x31];
        assert(title_bytes@ =~= buffer@.subrange(0x11, 0x31));
        let title_chars = trim_end_chars(&utf8_lossy(title_bytes), CharClass::NulOrSpace);
        let cart_type = read_u16_be(buffer, 0x35);
        Ok(Atari7800Info { title: string_from_chars(&title_chars), cart_type, rom_sha1 })
    }
}

impl RomInfo for Atari7800Info {
    fn console(&self) -> (r: &'static str)
        ensures
            r@ == "Atari 7800"@,
    {
        "Atari 7800"
    }

    fn dat_meta(&self) -> (r: DatMeta)
        ensures
            opt_view(r.title) == spec_non_empty(self.title@),
            r.region is None,
            r.version is None,
            r.date is None,
            r.manufacturer is None,
            r.serial is None,
            r.machine_id is None,
    {
        DatMeta {
            title: non_empty(self.title.as_str()),
            region: None,
            version: None,
            date: None,
            manufacturer: None,
            serial: None,
            machine_id: None,
        }
    }
}

impl RomHash for Atari7800Info {
    fn sha1(&self) -> (r: [u8; 20])
        ensures
            r@ == self.rom_sha1@,
    {
        self.rom_sha1
    }
}

impl Title for Atari7800Info {
    fn title(&self) -> (r: &str)
        ensures
            r@ == self.title@,
    {
        self.title.as_str()
    }
}

// ---------------------------------------------------------------------------
// Report
// ---------------------------------------------------------------------------

/// The report of an Atari 7800 cartridge.
pub open spec fn a7800_report(i: Atari7800Info) -> Seq<char> {
    title_line(i.title@) + "Cartridge Type: 0x"@ + hex_padded(i.cart_type as nat, 4) + "\n"@ + sha1_text(
        i.rom_sha1@,
    ) + "\n"@
}

impl Atari7800Info {
    /// The report the inspector prints for the cartridge.
    pub fn describe(&self) -> (r: String)
        ensures
            r@ == a7800_report(*self),
    {
        let mut t: Vec<char> = Vec::new();
        push_title_line(&mut t, self.title.as_str());
        append_str(&mut t, "Cartridge Type: 0x");
        push_hex_padded(&mut t, self.cart_type as u64, 4);
        append_str(&mut t, "\n");
        push_sha1(&mut t, &self.rom_sha1);
        append_str(&mut t, "\n");
        assert(t@ =~= a7800_report(*self));
        string_from_chars(&t)
    }
}

} // verus!
