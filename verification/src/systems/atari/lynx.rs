//! Atari Lynx cartridges with the 64-byte LNX header.

use crate::bytes::{matches_at, read_u16_le, spec_matches_at, spec_u16_le};
use crate::ext::{compute_sha1, spec_sha1, spec_utf8_lossy, string_from_chars, utf8_lossy};
use crate::systems::helpers::{non_empty, spec_non_empty};
use crate::text::{trim_end, trim_end_chars, CharClass};
use crate::traits::{opt_view, DatMeta, ParseError, RomHash, RomInfo, Title};
use crate::report::{push_dec, push_sha1, push_title_line, sha1_text, title_line};
use crate::text::{append_str, spec_decimal};
use vstd::prelude::*;

verus! {

/// `LYNX`.
pub open spec fn spec_lynx_magic() -> Seq<u8> {
    seq![0x4Cu8, 0x59, 0x4E, 0x58]
}

fn lynx_magic() -> (r: [u8; 4])
    ensures
        r@ == spec_lynx_magic(),
{
    let r: [u8; 4] = [0x4C, 0x59, 0x4E, 0x58];
    assert(r@ =~= spec_lynx_magic());
    r
}

/// The screen rotation the header asks for.
#[derive(Clone, Copy, Debug, PartialEq, Eq, Structural)]
pub enum LynxRotation {
    NoRotation,
    Left,
    Right,
    Unknown,
}

pub open spec fn spec_lynx_rotation(v: u8) -> LynxRotation {
    if v == 0 {
        LynxRotation::NoRotation
    } else if v == 1 {
        LynxRotation::Left
    } else if v == 2 {
        LynxRotation::Right
    } else {
        LynxRotation::Unknown
    }
}

impl From<u8> for LynxRotation {
    fn from(value: u8) -> (r: LynxRotation) {
        match value {
            0 => LynxRotation::NoRotation,
            1 => LynxRotation::Left,
            2 => LynxRotation::Right,
            _ => LynxRotation::Unknown,
        }
    }
}

impl vstd::std_specs::convert::FromSpecImpl<u8> for LynxRotation {
    open spec fn obeys_from_spec() -> bool {
        true
    }

    open spec fn from_spec(v: u8) -> LynxRotation {
        spec_lynx_rotation(v)
    }
}

/// A parsed LNX header.
pub struct AtariLynxInfo {
    pub title: String,
    pub manufacturer: String,
    pub version: u16,
    pub rotation: LynxRotation,
    pub bank0_page_size: u16,
    pub bank1_page_size: u16,
    pub rom_sha1: [u8; 20],
}

/// The error a parse fails with, when it fails.
pub open spec fn lynx_parse_error(b: Seq<u8>) -> Option<ParseError> {
    if b.len() < 64 {
        Some(ParseError::BufferTooSmall)
    } else if !spec_matches_at(b, 0, spec_lynx_magic()) {
        Some(ParseError::MagicNotFound)
    } else {
        None
    }
}

/// What a successful parse reads from the buffer.
pub open spec fn lynx_info_matches(b: Seq<u8>, info: AtariLynxInfo) -> bool {
    &&& info.bank0_page_size == spec_u16_le(b, 4)
    &&& info.bank1_page_size == spec_u16_le(b, 6)
    &&& info.version == spec_u16_le(b, 8)
    &&& info.rotation == spec_lynx_rotation(b[0x3A])
    &&& info.title@ == trim_end(spec_utf8_lossy(b.subrange(0x0A, 0x2A)), CharClass::Nul)
    &&& info.manufacturer@ == trim_end(spec_utf8_lossy(b.subrange(0x2A, 0x3A)), CharClass::Nul)
    &&& info.rom_sha1@ == spec_sha1(b.skip(64))
}

fn nul_trimmed(buffer: &[u8], lo: usize, hi: usize) -> (r: String)
    requires
        lo <= hi <= buffer.len(),
    ensures
        r@ == trim_end(spec_utf8_lossy(buffer@.subrange(lo as int, hi as int)), CharClass::Nul),
{
    let field = &buffer[lo..hi];
    assert(field@ =~= buffer@.subrange(lo as int, hi as int));
    let chars = trim_end_chars(&utf8_lossy(field), CharClass::Nul);
    string_from_chars(&chars)
}

impl AtariLynxInfo {
    /// Parse an LNX header and hash the ROM after it.
    pub fn try_from(buffer: &[u8]) -> (r: Result<AtariLynxInfo, ParseError>)
        ensures
            match r {
                Ok(info) => lynx_parse_error(buffer@) is None && lynx_info_matches(buffer@, info),
                Err(e) => lynx_parse_error(buffer@) == Some(e),
            },
    {
        if buffer.len() < 64 {
            return Err(ParseError::BufferTooSmall);
        }
        let magic = lynx_magic();
        if !matches_at(buffer, 0, magic.as_slice()) {
            return Err(ParseError::MagicNotFound);
        }
        let rom = &buffer[64..buffer.len()];
        assert(rom@ =~= buffer@.skip(64));
        let rom_sha1 = compute_sha1(rom);
        Ok(
            AtariLynxInfo {
                title: nul_trimmed(buffer, 0x0A, 0x2A),
                manufacturer: nul_trimmed(buffer, 0x2A, 0x3A),
                version: read_u16_le(buffer, 8),
                rotation: LynxRotation::from(buffer[0x3A]),
                bank0_page_size: read_u16_le(buffer, 4),
                bank1_page_size: read_u16_le(buffer, 6),
                rom_sha1,
            },
        )
    }
}

impl RomInfo for AtariLynxInfo {
    fn console(&self) -> (r: &'static str)
        ensures
            r@ == "Atari Lynx"@,
    {
        "Atari Lynx"
    }

    fn dat_meta(&self) -> (r: DatMeta)
        ensures
            opt_view(r.title) == spec_non_empty(self.title@),
            opt_view(r.manufacturer) == spec_non_empty(self.manufacturer@),
            r.region is None,
            r.version is None,
            r.date is None,
            r.serial is None,
            r.machine_id is None,
    {
        DatMeta {
            title: non_empty(self.title.as_str()),
            region: None,
            version: None,
            date: None,
            manufacturer: non_empty(self.manufacturer.as_str()),
            serial: None,
            machine_id: None,
        }
    }
}

impl RomHash for AtariLynxInfo {
    fn sha1(&self) -> (r: [u8; 20])
        ensures
            r@ == self.rom_sha1@,
    {
        self.rom_sha1
    }
}

impl Title for AtariLynxInfo {
    fn title(&self) -> (r: &str)
        ensures
            r@ == self.title@,
    {
        self.title.as_str()
    }
}

// ---------------------------------------------------------------------------
// Report
// ---------------------------------------------------------------------------

impl LynxRotation {
    /// How the rotation is written.
    pub open spec fn name_text(self) -> Seq<char> {
        match self {
            LynxRotation::NoRotation => "None"@,
            LynxRotation::Left => "Left"@,
            LynxRotation::Right => "Right"@,
            LynxRotation::Unknown => "Unknown"@,
        }
    }

    /// How the rotation is written.
    pub fn name(&self) -> (r: &'static str)
        ensures
            r@ == self.name_text(),
    {
        match self {
            LynxRotation::NoRotation => "None",
            LynxRotation::Left => "Left",
            LynxRotation::Right => "Right",
            LynxRotation::Unknown => "Unknown",
        }
    }
}

/// The report of a Lynx cartridge.
pub open spec fn lynx_report(i: AtariLynxInfo) -> Seq<char> {
    title_line(i.title@) + "Screen Rotation: "@ + i.rotation.name_text() + "\n"@ + (
    if i.manufacturer@.len() > 0 {
        "Manufacturer: "@ + i.manufacturer@ + "\n"@
    } else {
        Seq::empty()
    }) + "Header Version: "@ + spec_decimal(i.version as nat) + "\n"@ + sha1_text(i.rom_sha1@) + "\n"@
}

impl AtariLynxInfo {
    /// The report the inspector prints for the cartridge.
    pub fn describe(&self) -> (r: String)
        ensures
            r@ == lynx_report(*self),
    {
        let mut t: Vec<char> = Vec::new();
        push_title_line(&mut t, self.title.as_str());
        append_str(&mut t, "Screen Rotation: ");
        append_str(&mut t, self.rotation.name());
        append_str(&mut t, "\n");
        if !self.manufacturer.as_str().is_empty() {
            append_str(&mut t, "Manufacturer: ");
            append_str(&mut t, self.manufacturer.as_str());
            append_str(&mut t, "\n");
        }
        append_str(&mut t, "Header Version: ");
        push_dec(&mut t, self.version as u64);
        append_str(&mut t, "\n");
        push_sha1(&mut t, &self.rom_sha1);
        append_str(&mut t, "\n");
        assert(t@ =~= lynx_report(*self));
        string_from_chars(&t)
    }
}

} // verus!
