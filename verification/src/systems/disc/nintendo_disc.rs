//! The disc header shared by GameCube and Wii discs, at offset 0.

use crate::bytes::{read_u32_be, spec_u32_be};
use crate::ext::{spec_utf8_lossy, string_from_chars, utf8_lossy};
use crate::systems::helpers::{dat_revision, non_empty, spec_dat_revision, spec_non_empty};
use crate::text::{trim_both_chars, trim_end, trim_end_chars, trim_ws, CharClass};
use crate::traits::{opt_view, DatMeta};
use crate::output::cue::pad2;
use crate::report::push_dec;
use crate::text::{append_str, spec_decimal};
use vstd::prelude::*;

verus! {

/// Which console a Nintendo disc belongs to.
#[derive(Debug, Clone, Copy, PartialEq, Eq, Structural)]
pub enum NintendoDiscType {
    GameCube,
    Wii,
}

/// Why a typed parse failed.
#[derive(Debug, Clone, Copy, PartialEq, Eq, Structural)]
pub enum NintendoDiscParseError {
    /// The magics name another console, or none.
    UnexpectedDiscType,
    /// The magic is there but the header is cut short.
    InvalidHeader,
}

/// A parsed Nintendo disc header.
pub struct NintendoDiscHeader {
    pub disc_type: Option<NintendoDiscType>,
    pub game_id: String,
    pub disc_number: u8,
    pub version: u8,
    pub audio_streaming: bool,
    pub title: String,
    pub region_code: char,
}

/// The disc type the magics show: Wii when the Wii magic is at 0x18 (Wii
/// discs carry both), else GameCube when its magic is at 0x1C.
pub open spec fn spec_detect_nintendo_disc(b: Seq<u8>) -> Option<NintendoDiscType> {
    if b.len() < 0x20 {
        None
    } else if spec_u32_be(b, 0x18) == 0x5D1C9EA3 {
        Some(NintendoDiscType::Wii)
    } else if spec_u32_be(b, 0x1C) == 0xC2339F3D {
        Some(NintendoDiscType::GameCube)
    } else {
        None
    }
}

pub fn detect_nintendo_disc(buffer: &[u8]) -> (r: Option<NintendoDiscType>)
    ensures
        r == spec_detect_nintendo_disc(buffer@),
{
    if buffer.len() < 0x20 {
        return None;
    }
    if read_u32_be(buffer, 0x18) == 0x5D1C9EA3 {
        return Some(NintendoDiscType::Wii);
    }
    if read_u32_be(buffer, 0x1C) == 0xC2339F3D {
        return Some(NintendoDiscType::GameCube);
    }
    None
}

/// The game ID: six bytes, lossily decoded and trimmed.
pub open spec fn nd_game_id(b: Seq<u8>) -> Seq<char> {
    trim_ws(spec_utf8_lossy(b.subrange(0, 6)))
}

/// What a header parse reads from the buffer.
pub open spec fn nd_header_matches(b: Seq<u8>, h: NintendoDiscHeader) -> bool {
    let id = nd_game_id(b);
    &&& h.disc_type == spec_detect_nintendo_disc(b)
    &&& h.game_id@ == id
    &&& h.region_code == if id.len() > 3 {
        id[3]
    } else {
        '?'
    }
    &&& h.disc_number == b[6]
    &&& h.version == b[7]
    &&& h.audio_streaming == (b[8] != 0)
    &&& h.title@ == trim_ws(trim_end(spec_utf8_lossy(b.subrange(0x20, 0x60)), CharClass::Nul))
}

/// Parse the header: `None` without a magic or without the 0x60 header bytes.
pub fn parse_nintendo_disc_header(buffer: &[u8]) -> (r: Option<NintendoDiscHeader>)
    ensures
        match r {
            Some(h) => spec_detect_nintendo_disc(buffer@) is Some && buffer@.len() >= 0x60
                && nd_header_matches(buffer@, h),
            None => spec_detect_nintendo_disc(buffer@) is None || buffer@.len() < 0x60,
        },
{
    let disc_type = match detect_nintendo_disc(buffer) {
        Some(t) => t,
        None => {
            return None;
        },
    };
    if buffer.len() < 0x60 {
        return None;
    }
    let id_bytes = &buffer[0..6];
    assert(id_bytes@ =~= buffer@.subrange(0, 6));
    let id_chars = trim_both_chars(&utf8_lossy(id_bytes), CharClass::Whitespace);
    let region_code = if id_chars.len() > 3 {
        id_chars[3]
    } else {
        '?'
    };
    let title_bytes = &buffer[0x20..0x60];
    assert(title_bytes@ =~= buffer@.subrange(0x20, 0x60));
    let title_chars = trim_both_chars(
        &trim_end_chars(&utf8_lossy(title_bytes), CharClass::Nul),
        CharClass::Whitespace,
    );
    Some(
        NintendoDiscHeader {
            disc_type: Some(disc_type),
            game_id: string_from_chars(&id_chars),
            disc_number: buffer[6],
            version: buffer[7],
            audio_streaming: buffer[8] != 0,
            title: string_from_chars(&title_chars),
            region_code,
        },
    )
}

/// The outcome of a parse that expects one disc type.
pub open spec fn spec_typed_header_error(b: Seq<u8>, expected: NintendoDiscType) -> Option<
    NintendoDiscParseError,
> {
    if spec_detect_nintendo_disc(b) != Some(expected) {
        Some(NintendoDiscParseError::UnexpectedDiscType)
    } else if b.len() < 0x60 {
        Some(NintendoDiscParseError::InvalidHeader)
    } else {
        None
    }
}

/// Parse the header of a disc that must be of type `expected`.
pub fn parse_typed_nintendo_disc_header(buffer: &[u8], expected: NintendoDiscType) -> (r: Result<
    NintendoDiscHeader,
    NintendoDiscParseError,
>)
    ensures
        match r {
            Ok(h) => spec_typed_header_error(buffer@, expected) is None && nd_header_matches(
                buffer@,
                h,
            ),
            Err(e) => spec_typed_header_error(buffer@, expected) == Some(e),
        },
{
    match detect_nintendo_disc(buffer) {
        Some(t) => {
            if t != expected {
                return Err(NintendoDiscParseError::UnexpectedDiscType);
            }
        },
        None => {
            return Err(NintendoDiscParseError::UnexpectedDiscType);
        },
    }
    match parse_nintendo_disc_header(buffer) {
        Some(h) => Ok(h),
        None => Err(NintendoDiscParseError::InvalidHeader),
    }
}

/// The region name of a game ID region character.
pub open spec fn spec_decode_region(c: char) -> Seq<char> {
    if c == 'J' {
        "Japan"@
    } else if c == 'E' {
        "North America"@
    } else if c == 'P' {
        "Europe (PAL)"@
    } else if c == 'D' {
        "Germany"@
    } else if c == 'F' {
        "France"@
    } else if c == 'I' {
        "Italy"@
    } else if c == 'S' {
        "Spain"@
    } else if c == 'H' {
        "Netherlands"@
    } else if c == 'K' {
        "Korea"@
    } else if c == 'W' {
        "Taiwan"@
    } else if c == 'A' {
        "Australia"@
    } else if c == 'R' {
        "Russia"@
    } else {
        "Unknown"@
    }
}

pub fn decode_region(region_code: char) -> (r: &'static str)
    ensures
        r@ == spec_decode_region(region_code),
{
    match region_code {
        'J' => "Japan",
        'E' => "North America",
        'P' => "Europe (PAL)",
        'D' => "Germany",
        'F' => "France",
        'I' => "Italy",
        'S' => "Spain",
        'H' => "Netherlands",
        'K' => "Korea",
        'W' => "Taiwan",
        'A' => "Australia",
        'R' => "Russia",
        _ => "Unknown",
    }
}

/// The catalogue region of a game ID region character.
pub open spec fn spec_dat_region_char(c: char) -> Option<Seq<char>> {
    if c == 'J' {
        Some("Japan"@)
    } else if c == 'E' {
        Some("USA"@)
    } else if c == 'P' {
        Some("Europe"@)
    } else if c == 'D' {
        Some("Germany"@)
    } else if c == 'F' {
        Some("France"@)
    } else if c == 'I' {
        Some("Italy"@)
    } else if c == 'S' {
        Some("Spain"@)
    } else if c == 'H' {
        Some("Netherlands"@)
    } else if c == 'K' {
        Some("Korea"@)
    } else if c == 'W' {
        Some("Taiwan"@)
    } else if c == 'A' {
        Some("Australia"@)
    } else if c == 'R' {
        Some("Russia"@)
    } else {
        None
    }
}

pub fn dat_region(region_code: char) -> (r: Option<&'static str>)
    ensures
        match r {
            Some(s) => spec_dat_region_char(region_code) == Some(s@),
            None => spec_dat_region_char(region_code) is None,
        },
{
    match region_code {
        'J' => Some("Japan"),
        'E' => Some("USA"),
        'P' => Some("Europe"),
        'D' => Some("Germany"),
        'F' => Some("France"),
        'I' => Some("Italy"),
        'S' => Some("Spain"),
        'H' => Some("Netherlands"),
        'K' => Some("Korea"),
        'W' => Some("Taiwan"),
        'A' => Some("Australia"),
        'R' => Some("Russia"),
        _ => None,
    }
}

impl NintendoDiscHeader {
    /// Catalogue metadata: title, region, revision, and the game ID as serial
    /// and machine identifier.
    pub fn dat_meta(&self) -> (r: DatMeta)
        ensures
            opt_view(r.title) == spec_non_empty(self.title@),
            opt_view(r.region) == spec_dat_region_char(self.region_code),
            opt_view(r.version) == spec_dat_revision(self.version),
            opt_view(r.serial) == spec_non_empty(self.game_id@),
            opt_view(r.machine_id) == spec_non_empty(self.game_id@),
            r.date is None,
            r.manufacturer is None,
    {
        let region = match dat_region(self.region_code) {
            Some(s) => Some(String::from_str(s)),
            None => None,
        };
        DatMeta {
            title: non_empty(self.title.as_str()),
            region,
            version: dat_revision(self.version),
            date: None,
            manufacturer: None,
            serial: non_empty(self.game_id.as_str()),
            machine_id: non_empty(self.game_id.as_str()),
        }
    }
}

// ---------------------------------------------------------------------------
// Report
// ---------------------------------------------------------------------------

/// The report of a GameCube or Wii disc header.
pub open spec fn nintendo_disc_report(h: NintendoDiscHeader) -> Seq<char> {
    "Title: "@ + h.title@ + "\n"@ + "Game ID: "@ + h.game_id@ + "\n"@ + "Region: "@ + spec_decode_region(
        h.region_code,
    ) + "\n"@ + "Version: 1."@ + pad2(h.version as nat) + "\n"@ + "Disc Number: "@ + spec_decimal(
        (h.disc_number + 1) as nat,
    ) + "\n"@ + (if h.audio_streaming {
        "Audio Streaming: Enabled\n"@
    } else {
        Seq::empty()
    })
}

impl NintendoDiscHeader {
    /// The report the inspector prints for the disc header.
    pub fn describe(&self) -> (r: String)
        requires
            self.disc_number < 255,
        ensures
            r@ == nintendo_disc_report(*self),
    {
        let mut t: Vec<char> = Vec::new();
        append_str(&mut t, "Title: ");
        append_str(&mut t, self.title.as_str());
        append_str(&mut t, "\n");
        append_str(&mut t, "Game ID: ");
        append_str(&mut t, self.game_id.as_str());
        append_str(&mut t, "\n");
        append_str(&mut t, "Region: ");
        append_str(&mut t, decode_region(self.region_code));
        append_str(&mut t, "\n");
        append_str(&mut t, "Version: 1.");
        if self.version < 10 {
            t.push('0');
        }
        push_dec(&mut t, self.version as u64);
        append_str(&mut t, "\n");
        append_str(&mut t, "Disc Number: ");
        push_dec(&mut t, (self.disc_number + 1) as u64);
        append_str(&mut t, "\n");
        if self.audio_streaming {
            append_str(&mut t, "Audio Streaming: Enabled\n");
        }
        assert(t@ =~= nintendo_disc_report(*self));
        string_from_chars(&t)
    }
}

} // verus!
