//! Optical disc images: sector layouts, ISO 9660 descriptors, Sega and
//! Nintendo boot headers.

pub mod nintendo_disc;
pub mod pvd;
pub mod sector;
pub mod sega_ip;

use crate::ext::{compute_sha1, spec_sha1};
use crate::output::hash::format_sha1;
use crate::systems::cdi::{spec_cdi_error, CdiDisc};
use crate::systems::dreamcast::{dreamcast_error, DreamcastDisc};
use crate::systems::helpers::{non_empty, spec_non_empty};
use crate::systems::iso::IsoImage;
use crate::systems::playstation::{spec_playstation_error, PlaystationDisc};
use crate::systems::saturn::{saturn_error, SaturnDisc};
use crate::systems::segacd::{scd_regions, scd_text, spec_find_header_base, SegaCdDisc};
use crate::text::{spec_field_text, spec_hex, str_contains};
use crate::traits::{opt_view, RomHash, RomInfo, Title};
use self::pvd::spec_parse_pvd_ok;
use self::sega_ip::ip_base;
use vstd::prelude::*;

verus! {

/// What the CUE enrichment knows of a disc image.
pub struct DiscAnalysis {
    pub console: Option<String>,
    pub title: Option<String>,
    pub region: Option<String>,
    pub product_code: Option<String>,
    pub disc_sha1: Option<String>,
}

impl DiscAnalysis {
    /// An analysis with nothing known.
    pub fn empty() -> (r: DiscAnalysis)
        ensures
            analysis_view(r) == (
                None::<Seq<char>>,
                None::<Seq<char>>,
                None::<Seq<char>>,
                None::<Seq<char>>,
                None::<Seq<char>>,
            ),
    {
        DiscAnalysis {
            console: None,
            title: None,
            region: None,
            product_code: None,
            disc_sha1: None,
        }
    }
}

impl Default for DiscAnalysis {
    fn default() -> (r: DiscAnalysis)
        ensures
            analysis_view(r) == (
                None::<Seq<char>>,
                None::<Seq<char>>,
                None::<Seq<char>>,
                None::<Seq<char>>,
                None::<Seq<char>>,
            ),
    {
        DiscAnalysis::empty()
    }
}

/// The fields of an analysis as character sequences.
pub open spec fn analysis_view(a: DiscAnalysis) -> (
    Option<Seq<char>>,
    Option<Seq<char>>,
    Option<Seq<char>>,
    Option<Seq<char>>,
    Option<Seq<char>>,
) {
    (opt_view(a.console), opt_view(a.title), opt_view(a.region), opt_view(a.product_code), opt_view(a.disc_sha1))
}

/// A region text for area codes: the named regions among J, U and E.
pub open spec fn spec_decode_regions(s: Seq<char>) -> Seq<char> {
    let (j, u, e) = (s.contains('J'), s.contains('U'), s.contains('E'));
    if j && u && e {
        "Japan, USA, Europe"@
    } else if j && u {
        "Japan, USA"@
    } else if j && e {
        "Japan, Europe"@
    } else if u && e {
        "USA, Europe"@
    } else if j {
        "Japan"@
    } else if u {
        "USA"@
    } else if e {
        "Europe"@
    } else {
        "Unknown"@
    }
}

pub fn decode_regions(regions: &str) -> (r: &'static str)
    ensures
        r@ == spec_decode_regions(regions@),
{
    let j = str_contains(regions, 'J');
    let u = str_contains(regions, 'U');
    let e = str_contains(regions, 'E');
    if j && u && e {
        "Japan, USA, Europe"
    } else if j && u {
        "Japan, USA"
    } else if j && e {
        "Japan, Europe"
    } else if u && e {
        "USA, Europe"
    } else if j {
        "Japan"
    } else if u {
        "USA"
    } else if e {
        "Europe"
    } else {
        "Unknown"
    }
}

/// The analysis of a disc image: the first of Sega CD, Saturn, Dreamcast,
/// PlayStation, CD-i and plain ISO 9660 that parses decides the console,
/// and what that format holds fills the rest.
pub open spec fn spec_detect_disc(b: Seq<u8>) -> (
    Option<Seq<char>>,
    Option<Seq<char>>,
    Option<Seq<char>>,
    Option<Seq<char>>,
    Option<Seq<char>>,
) {
    let sha = Some(spec_hex(spec_sha1(b), true));
    if spec_find_header_base(b) is Some {
        let overseas = scd_text(b, 0x50, 48);
        (
            Some("Sega CD/Mega CD"@),
            Some(
                if overseas.len() > 0 {
                    overseas
                } else {
                    scd_text(b, 0x20, 48)
                },
            ),
            if scd_regions(b).len() > 0 {
                Some(spec_decode_regions(scd_regions(b)))
            } else {
                None
            },
            spec_non_empty(scd_text(b, 0x80, 14)),
            sha,
        )
    } else if saturn_error(b) is None {
        (Some("Sega Saturn"@), Some(spec_field_text(b, ip_base(b) + 0x60, 112)), None, None, sha)
    } else if dreamcast_error(b) is None {
        (
            Some("Sega Dreamcast"@),
            Some(spec_field_text(b, ip_base(b) + 0x80, 128)),
            None,
            None,
            sha,
        )
    } else if spec_playstation_error(b) is None {
        (Some("Sony PlayStation"@), None, None, None, sha)
    } else if spec_cdi_error(b) is None {
        (Some("Philips CD-i"@), None, None, None, sha)
    } else if spec_parse_pvd_ok(b) {
        (Some("ISO Image"@), None, None, None, sha)
    } else {
        (None, None, None, None, None)
    }
}

fn some_str(s: &str) -> (r: Option<String>)
    ensures
        opt_view(r) == Some(s@),
{
    Some(String::from_str(s))
}

/// Detect the kind of disc and gather what the CUE enrichment reports of it.
pub fn detect_disc(buffer: &[u8]) -> (r: DiscAnalysis)
    ensures
        analysis_view(r) == spec_detect_disc(buffer@),
{
    match SegaCdDisc::try_from(buffer) {
        Ok(disc) => {
            let region = match non_empty(disc.regions.as_str()) {
                Some(regions) => some_str(decode_regions(regions.as_str())),
                None => None,
            };
            let sha = disc.sha1();
            return DiscAnalysis {
                console: some_str(disc.console()),
                title: some_str(disc.title()),
                region,
                product_code: non_empty(disc.product_code.as_str()),
                disc_sha1: Some(format_sha1(&sha)),
            };
        },
        Err(_) => {},
    }
    match SaturnDisc::try_from(buffer) {
        Ok(disc) => {
            let sha = disc.sha1();
            return DiscAnalysis {
                console: some_str(disc.console()),
                title: some_str(disc.title()),
                region: None,
                product_code: None,
                disc_sha1: Some(format_sha1(&sha)),
            };
        },
        Err(_) => {},
    }
    match DreamcastDisc::try_from(buffer) {
        Ok(disc) => {
            let sha = disc.sha1();
            return DiscAnalysis {
                console: some_str(disc.console()),
                title: some_str(disc.title()),
                region: None,
                product_code: None,
                disc_sha1: Some(format_sha1(&sha)),
            };
        },
        Err(_) => {},
    }
    match PlaystationDisc::try_from(buffer) {
        Ok(disc) => {
            let sha = disc.sha1();
            return DiscAnalysis {
                console: some_str(disc.console()),
                title: None,
                region: None,
                product_code: None,
                disc_sha1: Some(format_sha1(&sha)),
            };
        },
        Err(_) => {},
    }
    match CdiDisc::try_from(buffer) {
        Ok(disc) => {
            let sha = compute_sha1(buffer);
            return DiscAnalysis {
                console: some_str(disc.console()),
                title: None,
                region: None,
                product_code: None,
                disc_sha1: Some(format_sha1(&sha)),
            };
        },
        Err(_) => {},
    }
    match IsoImage::try_from(buffer) {
        Ok(disc) => {
            let sha = compute_sha1(buffer);
            return DiscAnalysis {
                console: some_str(disc.console()),
                title: None,
                region: None,
                product_code: None,
                disc_sha1: Some(format_sha1(&sha)),
            };
        },
        Err(_) => {},
    }
    DiscAnalysis::empty()
}

} // verus!
