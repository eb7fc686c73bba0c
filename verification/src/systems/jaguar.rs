//! Atari Jaguar cartridges.

use crate::bits::{is_pow2, spec_is_pow2};
use crate::bytes::{read_u32_be, spec_u32_be};
use crate::ext::{compute_sha1, spec_sha1};
use crate::traits::{meta_is_empty, DatMeta, ParseError, RomHash, RomInfo};
use crate::report::{push_sha1, sha1_text};
use vstd::prelude::*;

verus! {

/// A recognised Jaguar cartridge.
pub struct AtariJaguarInfo {
    pub start_address: u32,
    pub rom_sha1: [u8; 20],
}

/// The error a parse fails with, when it fails.
pub open spec fn jaguar_parse_error(b: Seq<u8>) -> Option<ParseError> {
    if !(0x80000 <= b.len() <= 0x400000) || !spec_is_pow2(b.len()) {
        Some(ParseError::BufferTooSmall)
    } else if !(b[0x404] == 0x00 && b[0x405] == 0x80 && b[0x406] == 0x20 && b[0x407] == 0x00) {
        Some(ParseError::MagicNotFound)
    } else {
        None
    }
}

impl AtariJaguarInfo {
    /// Recognise a Jaguar cartridge: a power-of-two size of 512 KiB to 4 MiB
    /// and the start address 0x00802000 at 0x404.
    pub fn try_from(buffer: &[u8]) -> (r: Result<AtariJaguarInfo, ParseError>)
        ensures
            match r {
                Ok(info) => jaguar_parse_error(buffer@) is None && info.start_address
                    == spec_u32_be(buffer@, 0x404) && info.rom_sha1@ == spec_sha1(buffer@),
                Err(e) => jaguar_parse_error(buffer@) == Some(e),
            },
    {
        let len = buffer.len();
        if !(0x80000 <= len && len <= 0x400000) || !is_pow2(len as u64) {
            return Err(ParseError::BufferTooSmall);
        }
        if !(buffer[0x404] == 0x00 && buffer[0x405] == 0x80 && buffer[0x406] == 0x20 && buffer[0x407]
            == 0x00) {
            return Err(ParseError::MagicNotFound);
        }
        let start_address = read_u32_be(buffer, 0x404);
        let rom_sha1 = compute_sha1(buffer);
        Ok(AtariJaguarInfo { start_address, rom_sha1 })
    }
}

impl RomInfo for AtariJaguarInfo {
    fn console(&self) -> (r: &'static str)
        ensures
            r@ == "Atari Jaguar"@,
    {
        "Atari Jaguar"
    }

    fn dat_meta(&self) -> (r: DatMeta)
        ensures
            meta_is_empty(r),
    {
        DatMeta::empty()
    }
}

impl RomHash for AtariJaguarInfo {
    fn sha1(&self) -> (r: [u8; 20])
        ensures
            r@ == self.rom_sha1@,
    {
        self.rom_sha1
    }
}

// ---------------------------------------------------------------------------
// Report
// ---------------------------------------------------------------------------

/// The report of the cartridge: its digest.
pub open spec fn jaguar_report(i: AtariJaguarInfo) -> Seq<char> {
    sha1_text(i.rom_sha1@) + "\n"@
}

impl AtariJaguarInfo {
    /// The report the inspector prints for the cartridge.
    pub fn describe(&self) -> (r: String)
        ensures
            r@ == jaguar_report(*self),
    {
        let mut t: Vec<char> = Vec::new();
        push_sha1(&mut t, &self.rom_sha1);
        crate::text::append_str(&mut t, "\n");
        crate::ext::string_from_chars(&t)
    }
}

} // verus!
