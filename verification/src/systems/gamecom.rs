//! Tiger game.com cartridges, found by the `TigerDMGC` signature in their header.

use crate::bytes::{matches_at, read_u16_be, spec_matches_at, spec_u16_be};
use crate::traits::{meta_is_empty, DatMeta, ParseError, RomInfo};
use crate::ext::{spec_utf8_lossy, string_from_chars, utf8_lossy};
use crate::report::{hex_padded, push_hex_padded};
use crate::text::{append_chars, append_str, trim_both, trim_both_chars, trim_end, trim_end_chars, CharClass};
use vstd::prelude::*;

verus! {

/// `TigerDMGC`.
pub open spec fn spec_gamecom_signature() -> Seq<u8> {
    seq![0x54u8, 0x69, 0x67, 0x65, 0x72, 0x44, 0x4D, 0x47, 0x43]
}

fn gamecom_signature() -> (r: [u8; 9])
    ensures
        r@ == spec_gamecom_signature(),
{
    let r: [u8; 9] = [0x54, 0x69, 0x67, 0x65, 0x72, 0x44, 0x4D, 0x47, 0x43];
    assert(r@ =~= spec_gamecom_signature());
    r
}

/// Why a buffer is not a game.com cartridge.
#[derive(Clone, Copy, Debug, PartialEq, Eq, Structural)]
pub enum GamecomParseError {
    SignatureNotFound,
    InvalidSignaturePlacement,
    TruncatedHeader,
    InvalidProgramStringLength,
}

/// A parsed game.com header.
pub struct GamecomRomInfo {
    pub program_string: [u8; 9],
    pub program_id: u16,
    pub allowed_slot1: bool,
    pub allowed_slot2: bool,
    pub data_only: bool,
    pub icon_present: bool,
}

/// The first position from `i` on where the signature occurs.
pub open spec fn gamecom_find_from(b: Seq<u8>, i: int) -> Option<int>
    decreases b.len() - i,
{
    if i < 0 || i + 9 > b.len() {
        None
    } else if spec_matches_at(b, i, spec_gamecom_signature()) {
        Some(i)
    } else {
        gamecom_find_from(b, i + 1)
    }
}

/// The rejection of a buffer, when it is rejected.
pub open spec fn spec_gamecom_error(b: Seq<u8>) -> Option<GamecomParseError> {
    match gamecom_find_from(b, 0) {
        None => Some(GamecomParseError::SignatureNotFound),
        Some(s) => if s < 5 {
            Some(GamecomParseError::InvalidSignaturePlacement)
        } else if b.len() < s - 5 + 28 {
            Some(GamecomParseError::TruncatedHeader)
        } else {
            None
        },
    }
}

/// What a successful parse reads, with the header 5 bytes before the signature.
pub open spec fn gamecom_info_matches(b: Seq<u8>, info: GamecomRomInfo) -> bool {
    let h = gamecom_find_from(b, 0)->0 - 5;
    let flags = b[h + 4];
    &&& info.program_string@ == b.subrange(h + 17, h + 26)
    &&& info.program_id == spec_u16_be(b, h + 26)
    &&& info.allowed_slot1 == (flags % 2 == 1)
    &&& info.allowed_slot2 == ((flags / 2) % 2 == 1)
    &&& info.data_only == ((flags / 4) % 2 == 1)
    &&& info.icon_present == (b[h + 14] != 0)
}

pub fn parse_gamecom_info(buffer: &[u8]) -> (r: Result<GamecomRomInfo, GamecomParseError>)
    ensures
        match r {
            Ok(info) => spec_gamecom_error(buffer@) is None && gamecom_info_matches(buffer@, info),
            Err(e) => spec_gamecom_error(buffer@) == Some(e),
        },
{
    let sig = gamecom_signature();
    let len = buffer.len();
    if len < 9 {
        return Err(GamecomParseError::SignatureNotFound);
    }
    let mut i: usize = 0;
    let mut found: Option<usize> = None;
    while found.is_none() && i <= len - 9
        invariant
            len == buffer.len(),
            len >= 9,
            i <= len - 8,
            sig@ == spec_gamecom_signature(),
            found is None ==> gamecom_find_from(buffer@, 0) == gamecom_find_from(buffer@, i as int),
            found matches Some(s) ==> gamecom_find_from(buffer@, 0) == Some(s as int) && s + 9 <= len,
        decreases len - i + if found is None { 1int } else { 0int },
    {
        if matches_at(buffer, i, sig.as_slice()) {
            found = Some(i);
        } else {
            i += 1;
        }
    }
    let sig_at = match found {
        Some(s) => s,
        None => {
            return Err(GamecomParseError::SignatureNotFound);
        },
    };
    if sig_at < 5 {
        return Err(GamecomParseError::InvalidSignaturePlacement);
    }
    let h = sig_at - 5;
    if len - h < 28 {
        return Err(GamecomParseError::TruncatedHeader);
    }
    let program_string: [u8; 9] = [
        buffer[h + 17],
        buffer[h + 18],
        buffer[h + 19],
        buffer[h + 20],
        buffer[h + 21],
        buffer[h + 22],
        buffer[h + 23],
        buffer[h + 24],
        buffer[h + 25],
    ];
    assert(program_string@ =~= buffer@.subrange(h + 17, h + 26));
    let flags = buffer[h + 4];
    Ok(
        GamecomRomInfo {
            program_string,
            program_id: read_u16_be(buffer, h + 26),
            allowed_slot1: flags % 2 == 1,
            allowed_slot2: (flags / 2) % 2 == 1,
            data_only: (flags / 4) % 2 == 1,
            icon_present: buffer[h + 14] != 0,
        },
    )
}

/// The library error each rejection maps to.
pub open spec fn gamecom_error_kind(e: GamecomParseError) -> ParseError {
    match e {
        GamecomParseError::SignatureNotFound => ParseError::MagicNotFound,
        GamecomParseError::InvalidSignaturePlacement => ParseError::BufferTooSmall,
        GamecomParseError::TruncatedHeader => ParseError::BufferTooSmall,
        GamecomParseError::InvalidProgramStringLength => ParseError::InvalidHeader,
    }
}

impl GamecomRomInfo {
    /// Parse a game.com cartridge.
    pub fn try_from(buffer: &[u8]) -> (r: Result<GamecomRomInfo, ParseError>)
        ensures
            match r {
                Ok(info) => spec_gamecom_error(buffer@) is None && gamecom_info_matches(
                    buffer@,
                    info,
                ),
                Err(e) => spec_gamecom_error(buffer@) matches Some(g) && e == gamecom_error_kind(g),
            },
    {
        match parse_gamecom_info(buffer) {
            Ok(info) => Ok(info),
            Err(GamecomParseError::SignatureNotFound) => Err(ParseError::MagicNotFound),
            Err(GamecomParseError::InvalidSignaturePlacement) => Err(ParseError::BufferTooSmall),
            Err(GamecomParseError::TruncatedHeader) => Err(ParseError::BufferTooSmall),
            Err(GamecomParseError::InvalidProgramStringLength) => Err(ParseError::InvalidHeader),
        }
    }
}

impl RomInfo for GamecomRomInfo {
    fn console(&self) -> (r: &'static str)
        ensures
            r@ == "game.com"@,
    {
        "game.com"
    }

    fn dat_meta(&self) -> (r: DatMeta)
        ensures
            meta_is_empty(r),
    {
        DatMeta::empty()
    }
}

// ---------------------------------------------------------------------------
// Report
// ---------------------------------------------------------------------------

/// The program name: decoded leniently, trailing NULs and surrounding
/// white space dropped.
pub open spec fn gamecom_name(b: Seq<u8>) -> Seq<char> {
    trim_both(trim_end(spec_utf8_lossy(b), CharClass::Nul), CharClass::Whitespace)
}

/// The slots a cartridge is allowed in.
pub open spec fn gamecom_slots(s1: bool, s2: bool) -> Seq<char> {
    if s1 && s2 {
        "1 & 2"@
    } else if s1 {
        "1"@
    } else if s2 {
        "2"@
    } else {
        "?"@
    }
}

/// The report of a game.com cartridge (no final line break).
pub open spec fn gamecom_report(i: GamecomRomInfo) -> Seq<char> {
    let name = gamecom_name(i.program_string@);
    "Name: "@ + (if name.len() == 0 {
        "Unknown"@
    } else {
        name
    }) + "\n"@ + "Program Id: "@ + hex_padded(i.program_id as nat, 4) + "\n"@ + "Allowed in Slot: "@
        + gamecom_slots(i.allowed_slot1, i.allowed_slot2) + (if i.data_only {
        "\nData-only Cartridge"@
    } else {
        Seq::empty()
    }) + (if !i.icon_present {
        "\nNo icon present"@
    } else {
        Seq::empty()
    })
}

impl GamecomRomInfo {
    /// The report the inspector prints for the cartridge.
    pub fn describe(&self) -> (r: String)
        ensures
            r@ == gamecom_report(*self),
    {
        let lossy = utf8_lossy(self.program_string.as_slice());
        let name = trim_both_chars(&trim_end_chars(&lossy, CharClass::Nul), CharClass::Whitespace);
        let mut t: Vec<char> = Vec::new();
        append_str(&mut t, "Name: ");
        if name.len() == 0 {
            append_str(&mut t, "Unknown");
        } else {
            append_chars(&mut t, &name);
        }
        append_str(&mut t, "\n");
        append_str(&mut t, "Program Id: ");
        push_hex_padded(&mut t, self.program_id as u64, 4);
        append_str(&mut t, "\n");
        append_str(&mut t, "Allowed in Slot: ");
        if self.allowed_slot1 && self.allowed_slot2 {
            append_str(&mut t, "1 & 2");
        } else if self.allowed_slot1 {
            append_str(&mut t, "1");
        } else if self.allowed_slot2 {
            append_str(&mut t, "2");
        } else {
            append_str(&mut t, "?");
        }
        if self.data_only {
            append_str(&mut t, "\nData-only Cartridge");
        }
        if !self.icon_present {
            append_str(&mut t, "\nNo icon present");
        }
        assert(t@ =~= gamecom_report(*self));
        string_from_chars(&t)
    }
}

} // verus!
