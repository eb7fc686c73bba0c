//! Philips CD-i discs: an ISO 9660 volume whose system identifier starts
//! with `CD-I`.

use crate::systems::disc::pvd::{
    parse_pvd, pvd_matches, pvd_system_id, spec_parse_pvd_ok, PrimaryVolumeDescriptor,
};
use crate::text::{spec_starts_with, str_starts_with};
use crate::traits::{meta_is_empty, DatMeta, ParseError, RomInfo};
use crate::systems::disc::pvd::pvd_report;
use vstd::prelude::*;

verus! {

/// A CD-i disc: its volume descriptor.
pub struct CdiDisc {
    pub pvd: PrimaryVolumeDescriptor,
}

/// Why a buffer is not a CD-i disc.
#[derive(Clone, Copy, Debug, PartialEq, Eq, Structural)]
pub enum CdiParseError {
    InvalidPrimaryVolumeDescriptor,
    InvalidSystemId,
}

/// The rejection of a buffer, when it is rejected.
pub open spec fn spec_cdi_error(b: Seq<u8>) -> Option<CdiParseError> {
    if !spec_parse_pvd_ok(b) {
        Some(CdiParseError::InvalidPrimaryVolumeDescriptor)
    } else if !spec_starts_with(pvd_system_id(b), "CD-I"@) {
        Some(CdiParseError::InvalidSystemId)
    } else {
        None
    }
}

pub fn parse_cdi_disc(buffer: &[u8]) -> (r: Result<CdiDisc, CdiParseError>)
    ensures
        match r {
            Ok(d) => spec_cdi_error(buffer@) is None && pvd_matches(buffer@, d.pvd),
            Err(e) => spec_cdi_error(buffer@) == Some(e),
        },
{
    let pvd = match parse_pvd(buffer) {
        Some(p) => p,
        None => {
            return Err(CdiParseError::InvalidPrimaryVolumeDescriptor);
        },
    };
    if !str_starts_with(pvd.system_id.as_str(), "CD-I") {
        return Err(CdiParseError::InvalidSystemId);
    }
    Ok(CdiDisc { pvd })
}

impl CdiDisc {
    /// Parse a CD-i disc image.
    pub fn try_from(buffer: &[u8]) -> (r: Result<CdiDisc, ParseError>)
        ensures
            match r {
                Ok(d) => spec_cdi_error(buffer@) is None && pvd_matches(buffer@, d.pvd),
                Err(e) => match spec_cdi_error(buffer@) {
                    Some(CdiParseError::InvalidPrimaryVolumeDescriptor) => e
                        == ParseError::MagicNotFound,
                    Some(CdiParseError::InvalidSystemId) => e == ParseError::InvalidHeader,
                    None => false,
                },
            },
    {
        match parse_cdi_disc(buffer) {
            Ok(d) => Ok(d),
            Err(CdiParseError::InvalidPrimaryVolumeDescriptor) => Err(ParseError::MagicNotFound),
            Err(CdiParseError::InvalidSystemId) => Err(ParseError::InvalidHeader),
        }
    }
}

impl RomInfo for CdiDisc {
    fn console(&self) -> (r: &'static str)
        ensures
            r@ == "Philips CD-i"@,
    {
        "Philips CD-i"
    }

    fn dat_meta(&self) -> (r: DatMeta)
        ensures
            meta_is_empty(r),
    {
        DatMeta::empty()
    }
}

// ---------------------------------------------------------------------------
// Report
// ---------------------------------------------------------------------------

impl CdiDisc {
    /// The report the inspector prints for the disc: its volume descriptor.
    pub fn describe(&self) -> (r: String)
        ensures
            r@ == pvd_report(self.pvd),
    {
        self.pvd.describe()
    }
}

} // verus!
