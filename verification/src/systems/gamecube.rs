//! GameCube discs.

use crate::systems::disc::nintendo_disc::{
    nd_header_matches, parse_typed_nintendo_disc_header, spec_typed_header_error,
    NintendoDiscHeader, NintendoDiscParseError, NintendoDiscType,
};
use crate::traits::{meta_view, DatMeta, ParseError, RomInfo, Title};
use crate::systems::disc::nintendo_disc::nintendo_disc_report;
use vstd::prelude::*;

verus! {

/// A GameCube disc: its Nintendo disc header.
pub struct GameCubeDisc {
    pub header: NintendoDiscHeader,
}

/// Why a buffer is not a GameCube disc.
#[derive(Clone, Copy, Debug, PartialEq, Eq, Structural)]
pub enum GameCubeParseError {
    NotGameCubeDisc,
    InvalidNintendoHeader,
}

/// What a parse fails with, when it fails.
pub open spec fn gamecube_parse_error(b: Seq<u8>) -> Option<ParseError> {
    match spec_typed_header_error(b, NintendoDiscType::GameCube) {
        Some(NintendoDiscParseError::UnexpectedDiscType) => Some(ParseError::MagicNotFound),
        Some(NintendoDiscParseError::InvalidHeader) => Some(ParseError::InvalidHeader),
        None => None,
    }
}

/// Parse a GameCube disc: its magic and the whole 0x60-byte header.
pub fn parse_gamecube_disc(buffer: &[u8]) -> (r: Result<GameCubeDisc, GameCubeParseError>)
    ensures
        match r {
            Ok(d) => spec_typed_header_error(buffer@, NintendoDiscType::GameCube) is None
                && nd_header_matches(buffer@, d.header),
            Err(e) => spec_typed_header_error(buffer@, NintendoDiscType::GameCube) == Some(
                match e {
                    GameCubeParseError::NotGameCubeDisc => NintendoDiscParseError::UnexpectedDiscType,
                    GameCubeParseError::InvalidNintendoHeader => NintendoDiscParseError::InvalidHeader,
                },
            ),
        },
{
    match parse_typed_nintendo_disc_header(buffer, NintendoDiscType::GameCube) {
        Ok(header) => Ok(GameCubeDisc { header }),
        Err(NintendoDiscParseError::UnexpectedDiscType) => Err(GameCubeParseError::NotGameCubeDisc),
        Err(NintendoDiscParseError::InvalidHeader) => Err(GameCubeParseError::InvalidNintendoHeader),
    }
}

impl GameCubeDisc {
    /// Parse a GameCube disc.
    pub fn try_from(buffer: &[u8]) -> (r: Result<GameCubeDisc, ParseError>)
        ensures
            match r {
                Ok(d) => gamecube_parse_error(buffer@) is None && nd_header_matches(buffer@, d.header),
                Err(e) => gamecube_parse_error(buffer@) == Some(e),
            },
    {
        match parse_gamecube_disc(buffer) {
            Ok(d) => Ok(d),
            Err(GameCubeParseError::NotGameCubeDisc) => Err(ParseError::MagicNotFound),
            Err(GameCubeParseError::InvalidNintendoHeader) => Err(ParseError::InvalidHeader),
        }
    }
}

impl RomInfo for GameCubeDisc {
    fn console(&self) -> (r: &'static str)
        ensures
            r@ == "Nintendo GameCube"@,
    {
        "Nintendo GameCube"
    }

    fn dat_meta(&self) -> (r: DatMeta)
        ensures
            meta_view(r) == crate::systems::registry::nintendo_disc_meta(self.header),
    {
        self.header.dat_meta()
    }
}

impl Title for GameCubeDisc {
    fn title(&self) -> (r: &str)
        ensures
            r@ == self.header.title@,
    {
        self.header.title.as_str()
    }
}

// ---------------------------------------------------------------------------
// Report
// ---------------------------------------------------------------------------

impl GameCubeDisc {
    /// The report the inspector prints for the disc: its header.
    pub fn describe(&self) -> (r: String)
        requires
            self.header.disc_number < 255,
        ensures
            r@ == nintendo_disc_report(self.header),
    {
        self.header.describe()
    }
}

} // verus!
