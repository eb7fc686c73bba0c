//! Sony PlayStation discs: an ISO 9660 volume whose system identifier
//! starts with `PLAYSTATION`.

use crate::ext::{compute_sha1, spec_sha1};
use crate::systems::disc::pvd::{
    has_pvd, parse_pvd, pvd_matches, pvd_system_id, spec_has_pvd, spec_parse_pvd_ok,
    PrimaryVolumeDescriptor,
};
use crate::text::{spec_starts_with, str_starts_with};
use crate::traits::{meta_is_empty, DatMeta, ParseError, RomHash, RomInfo};
use crate::report::{push_sha1, sha1_text};
use crate::systems::disc::pvd::pvd_report;
use crate::text::append_str;
use vstd::prelude::*;

verus! {

/// A PlayStation disc: its volume descriptor and the SHA-1 of the image.
pub struct PlaystationDisc {
    pub pvd: PrimaryVolumeDescriptor,
    pub rom_sha1: [u8; 20],
}

/// Why a buffer is not a PlayStation disc.
#[derive(Clone, Copy, Debug, PartialEq, Eq, Structural)]
pub enum PlaystationParseError {
    MissingPrimaryVolumeDescriptor,
    InvalidPrimaryVolumeDescriptor,
    InvalidSystemId,
}

/// The rejection of a buffer, when it is rejected.
pub open spec fn spec_playstation_error(b: Seq<u8>) -> Option<PlaystationParseError> {
    if !spec_has_pvd(b) {
        Some(PlaystationParseError::MissingPrimaryVolumeDescriptor)
    } else if !spec_parse_pvd_ok(b) {
        Some(PlaystationParseError::InvalidPrimaryVolumeDescriptor)
    } else if !spec_starts_with(pvd_system_id(b), "PLAYSTATION"@) {
        Some(PlaystationParseError::InvalidSystemId)
    } else {
        None
    }
}

pub fn parse_playstation_disc(buffer: &[u8]) -> (r: Result<PlaystationDisc, PlaystationParseError>)
    ensures
        match r {
            Ok(d) => spec_playstation_error(buffer@) is None && pvd_matches(buffer@, d.pvd)
                && d.rom_sha1@ == spec_sha1(buffer@),
            Err(e) => spec_playstation_error(buffer@) == Some(e),
        },
{
    if !has_pvd(buffer) {
        return Err(PlaystationParseError::MissingPrimaryVolumeDescriptor);
    }
    let pvd = match parse_pvd(buffer) {
        Some(p) => p,
        None => {
            return Err(PlaystationParseError::InvalidPrimaryVolumeDescriptor);
        },
    };
    if !str_starts_with(pvd.system_id.as_str(), "PLAYSTATION") {
        return Err(PlaystationParseError::InvalidSystemId);
    }
    let rom_sha1 = compute_sha1(buffer);
    Ok(PlaystationDisc { pvd, rom_sha1 })
}

impl PlaystationDisc {
    /// Parse a PlayStation disc image.
    pub fn try_from(buffer: &[u8]) -> (r: Result<PlaystationDisc, ParseError>)
        ensures
            match r {
                Ok(d) => spec_playstation_error(buffer@) is None && pvd_matches(buffer@, d.pvd)
                    && d.rom_sha1@ == spec_sha1(buffer@),
                Err(e) => match spec_playstation_error(buffer@) {
                    Some(PlaystationParseError::MissingPrimaryVolumeDescriptor) => e
                        == ParseError::MagicNotFound,
                    Some(_) => e == ParseError::InvalidHeader,
                    None => false,
                },
            },
    {
        match parse_playstation_disc(buffer) {
            Ok(d) => Ok(d),
            Err(PlaystationParseError::MissingPrimaryVolumeDescriptor) => Err(
                ParseError::MagicNotFound,
            ),
            Err(_) => Err(ParseError::InvalidHeader),
        }
    }
}

impl RomInfo for PlaystationDisc {
    fn console(&self) -> (r: &'static str)
        ensures
            r@ == "Sony PlayStation"@,
    {
        "Sony PlayStation"
    }

    fn dat_meta(&self) -> (r: DatMeta)
        ensures
            meta_is_empty(r),
    {
        DatMeta::empty()
    }
}

impl RomHash for PlaystationDisc {
    fn sha1(&self) -> (r: [u8; 20])
        ensures
            r@ == self.rom_sha1@,
    {
        self.rom_sha1
    }
}

// ---------------------------------------------------------------------------
// Report
// ---------------------------------------------------------------------------

/// The report of a PlayStation disc.
pub open spec fn playstation_report(i: PlaystationDisc) -> Seq<char> {
    pvd_report(i.pvd) + "\n"@ + sha1_text(i.rom_sha1@) + "\n"@
}

impl PlaystationDisc {
    /// The report the inspector prints for the disc.
    pub fn describe(&self) -> (r: String)
        ensures
            r@ == playstation_report(*self),
    {
        let mut t: Vec<char> = Vec::new();
        let d = self.pvd.describe();
        append_str(&mut t, d.as_str());
        append_str(&mut t, "\n");
        push_sha1(&mut t, &self.rom_sha1);
        append_str(&mut t, "\n");
        crate::ext::string_from_chars(&t)
    }
}

} // verus!
