//! Generic ISO 9660 images.

use crate::systems::disc::pvd::{
    has_pvd, parse_pvd, pvd_matches, spec_has_pvd, spec_parse_pvd_ok, PrimaryVolumeDescriptor,
};
use crate::traits::{meta_is_empty, DatMeta, ParseError, RomInfo};
use crate::systems::disc::pvd::pvd_report;
use crate::text::append_str;
use vstd::prelude::*;

verus! {

/// An ISO 9660 image: its volume descriptor.
pub struct IsoImage {
    pub pvd: PrimaryVolumeDescriptor,
}

/// Why a buffer is not an ISO 9660 image.
#[derive(Clone, Copy, Debug, PartialEq, Eq, Structural)]
pub enum IsoParseError {
    MissingPrimaryVolumeDescriptor,
    InvalidPrimaryVolumeDescriptor,
}

pub fn parse_iso_image(buffer: &[u8]) -> (r: Result<IsoImage, IsoParseError>)
    ensures
        match r {
            Ok(d) => spec_parse_pvd_ok(buffer@) && pvd_matches(buffer@, d.pvd),
            Err(e) => (e == IsoParseError::MissingPrimaryVolumeDescriptor && !spec_has_pvd(buffer@))
                || (e == IsoParseError::InvalidPrimaryVolumeDescriptor && spec_has_pvd(buffer@)
                && !spec_parse_pvd_ok(buffer@)),
        },
{
    if !has_pvd(buffer) {
        return Err(IsoParseError::MissingPrimaryVolumeDescriptor);
    }
    match parse_pvd(buffer) {
        Some(pvd) => Ok(IsoImage { pvd }),
        None => Err(IsoParseError::InvalidPrimaryVolumeDescriptor),
    }
}

impl IsoImage {
    /// Parse an ISO 9660 image.
    pub fn try_from(buffer: &[u8]) -> (r: Result<IsoImage, ParseError>)
        ensures
            match r {
                Ok(d) => spec_parse_pvd_ok(buffer@) && pvd_matches(buffer@, d.pvd),
                Err(e) => (e == ParseError::MagicNotFound && !spec_has_pvd(buffer@)) || (e
                    == ParseError::InvalidHeader && spec_has_pvd(buffer@) && !spec_parse_pvd_ok(
                    buffer@,
                )),
            },
    {
        match parse_iso_image(buffer) {
            Ok(d) => Ok(d),
            Err(IsoParseError::MissingPrimaryVolumeDescriptor) => Err(ParseError::MagicNotFound),
            Err(IsoParseError::InvalidPrimaryVolumeDescriptor) => Err(ParseError::InvalidHeader),
        }
    }
}

impl RomInfo for IsoImage {
    fn console(&self) -> (r: &'static str)
        ensures
            r@ == "ISO Image"@,
    {
        "ISO Image"
    }

    fn dat_meta(&self) -> (r: DatMeta)
        ensures
            meta_is_empty(r),
    {
        DatMeta::empty()
    }
}

// ---------------------------------------------------------------------------
// Report
// ---------------------------------------------------------------------------

/// The report of a plain ISO 9660 image.
pub open spec fn iso_report(i: IsoImage) -> Seq<char> {
    "Format: ISO 9660 CD-ROM image\n"@ + pvd_report(i.pvd)
}

impl IsoImage {
    /// The report the inspector prints for the image.
    pub fn describe(&self) -> (r: String)
        ensures
            r@ == iso_report(*self),
    {
        let mut t: Vec<char> = Vec::new();
        append_str(&mut t, "Format: ISO 9660 CD-ROM image\n");
        let d = self.pvd.describe();
        append_str(&mut t, d.as_str());
        crate::ext::string_from_chars(&t)
    }
}

} // verus!
