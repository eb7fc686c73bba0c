//! Wii discs.

use crate::systems::disc::nintendo_disc::{
    nd_header_matches, parse_typed_nintendo_disc_header, spec_typed_header_error,
    NintendoDiscHeader, NintendoDiscParseError, NintendoDiscType,
};
use crate::traits::{meta_view, DatMeta, ParseError, RomInfo, Title};
use crate::systems::disc::nintendo_disc::nintendo_disc_report;
use vstd::prelude::*;

verus! {

/// A Wii disc: its Nintendo disc header.
pub struct WiiDisc {
    pub header: NintendoDiscHeader,
}

/// Why a buffer is not a Wii disc.
#[derive(Clone, Copy, Debug, PartialEq, Eq, Structural)]
pub enum WiiParseError {
    NotWiiDisc,
    InvalidNintendoHeader,
}

/// What a parse fails with, when it fails.
pub open spec fn wii_parse_error(b: Seq<u8>) -> Option<ParseError> {
    match spec_typed_header_error(b, NintendoDiscType::Wii) {
        Some(NintendoDiscParseError::UnexpectedDiscType) => Some(ParseError::MagicNotFound),
        Some(NintendoDiscParseError::InvalidHeader) => Some(ParseError::InvalidHeader),
        None => None,
    }
}

/// Parse a Wii disc: its magic and the whole 0x60-byte header.
pub fn parse_wii_disc(buffer: &[u8]) -> (r: Result<WiiDisc, WiiParseError>)
    ensures
        match r {
            Ok(d) => spec_typed_header_error(buffer@, NintendoDiscType::Wii) is None
                && nd_header_matches(buffer@, d.header),
            Err(e) => spec_typed_header_error(buffer@, NintendoDiscType::Wii) == Some(
                match e {
                    WiiParseError::NotWiiDisc => NintendoDiscParseError::UnexpectedDiscType,
                    WiiParseError::InvalidNintendoHeader => NintendoDiscParseError::InvalidHeader,
                },
            ),
        },
{
    match parse_typed_nintendo_disc_header(buffer, NintendoDiscType::Wii) {
        Ok(header) => Ok(WiiDisc { header }),
        Err(NintendoDiscParseError::UnexpectedDiscType) => Err(WiiParseError::NotWiiDisc),
        Err(NintendoDiscParseError::InvalidHeader) => Err(WiiParseError::InvalidNintendoHeader),
    }
}

impl WiiDisc {
    /// Parse a Wii disc.
    pub fn try_from(buffer: &[u8]) -> (r: Result<WiiDisc, ParseError>)
        ensures
            match r {
                Ok(d) => wii_parse_error(buffer@) is None && nd_header_matches(buffer@, d.header),
                Err(e) => wii_parse_error(buffer@) == Some(e),
            },
    {
        match parse_wii_disc(buffer) {
            Ok(d) => Ok(d),
            Err(WiiParseError::NotWiiDisc) => Err(ParseError::MagicNotFound),
            Err(WiiParseError::InvalidNintendoHeader) => Err(ParseError::InvalidHeader),
        }
    }
}

impl RomInfo for WiiDisc {
    fn console(&self) -> (r: &'static str)
        ensures
            r@ == "Nintendo Wii"@,
    {
        "Nintendo Wii"
    }

    fn dat_meta(&self) -> (r: DatMeta)
        ensures
            meta_view(r) == crate::systems::registry::nintendo_disc_meta(self.header),
    {
        self.header.dat_meta()
    }
}

impl Title for WiiDisc {
    fn title(&self) -> (r: &str)
        ensures
            r@ == self.header.title@,
    {
        self.header.title.as_str()
    }
}

// ---------------------------------------------------------------------------
// Report
// ---------------------------------------------------------------------------

impl WiiDisc {
    /// The report the inspector prints for the disc: its header.
    pub fn describe(&self) -> (r: String)
        requires
            self.header.disc_number < 255,
        ensures
            r@ == nintendo_disc_report(self.header),
    {
        self.header.describe()
    }
}

} // verus!
