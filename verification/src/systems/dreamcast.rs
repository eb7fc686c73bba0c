//! Sega Dreamcast discs: the IP.BIN header and an optional ISO 9660 descriptor.

use crate::ext::{compute_sha1, spec_sha1};
use crate::systems::disc::pvd::{parse_pvd, pvd_matches, spec_parse_pvd_ok, PrimaryVolumeDescriptor};
use crate::systems::disc::sega_ip::{
    dat_region_from_area_codes, is_dreamcast, parse_dreamcast_ip, dreamcast_ip_matches, spec_dat_region,
    spec_find_data_start, spec_dreamcast_magic, SegaIpBin,
};
use crate::systems::helpers::{non_empty, spec_non_empty};
use crate::traits::{opt_view, DatMeta, ParseError, RomHash, RomInfo, Title};
use crate::report::{push_sha1, sha1_text};
use crate::systems::disc::pvd::pvd_report;
use crate::systems::disc::sega_ip::ip_report;
use crate::text::append_str;
use vstd::prelude::*;

verus! {

/// A Sega Dreamcast disc.
pub struct DreamcastDisc {
    pub ip_bin: SegaIpBin,
    pub rom_sha1: [u8; 20],
    pub pvd: Option<PrimaryVolumeDescriptor>,
}

/// Why a buffer is not a Sega Dreamcast disc.
#[derive(Clone, Copy, Debug, PartialEq, Eq, Structural)]
pub enum DreamcastParseError {
    MissingDreamcastMagic,
    InvalidDreamcastIpHeader,
}

/// The rejection of a buffer, when it is rejected.
pub open spec fn dreamcast_error(b: Seq<u8>) -> Option<DreamcastParseError> {
    match spec_find_data_start(b, spec_dreamcast_magic()) {
        None => Some(DreamcastParseError::MissingDreamcastMagic),
        Some(base) => if b.len() < base + 0x100 {
            Some(DreamcastParseError::InvalidDreamcastIpHeader)
        } else {
            None
        },
    }
}

/// What a successful parse reads from the buffer.
pub open spec fn dreamcast_matches(b: Seq<u8>, d: DreamcastDisc) -> bool {
    &&& dreamcast_ip_matches(b, spec_find_data_start(b, spec_dreamcast_magic())->0, d.ip_bin)
    &&& d.rom_sha1@ == spec_sha1(b)
    &&& (d.pvd is Some) == spec_parse_pvd_ok(b)
    &&& d.pvd matches Some(p) ==> pvd_matches(b, p)
}

pub fn parse_dreamcast_disc(buffer: &[u8]) -> (r: Result<DreamcastDisc, DreamcastParseError>)
    ensures
        match r {
            Ok(d) => dreamcast_error(buffer@) is None && dreamcast_matches(buffer@, d),
            Err(e) => dreamcast_error(buffer@) == Some(e),
        },
{
    if !is_dreamcast(buffer) {
        return Err(DreamcastParseError::MissingDreamcastMagic);
    }
    let ip_bin = match parse_dreamcast_ip(buffer) {
        Some(ip) => ip,
        None => {
            return Err(DreamcastParseError::InvalidDreamcastIpHeader);
        },
    };
    let rom_sha1 = compute_sha1(buffer);
    let pvd = parse_pvd(buffer);
    Ok(DreamcastDisc { ip_bin, rom_sha1, pvd })
}

impl DreamcastDisc {
    /// Parse a Sega Dreamcast disc image.
    pub fn try_from(buffer: &[u8]) -> (r: Result<DreamcastDisc, ParseError>)
        ensures
            match r {
                Ok(d) => dreamcast_error(buffer@) is None && dreamcast_matches(buffer@, d),
                Err(e) => match dreamcast_error(buffer@) {
                    Some(DreamcastParseError::MissingDreamcastMagic) => e == ParseError::MagicNotFound,
                    Some(DreamcastParseError::InvalidDreamcastIpHeader) => e == ParseError::InvalidHeader,
                    None => false,
                },
            },
    {
        match parse_dreamcast_disc(buffer) {
            Ok(d) => Ok(d),
            Err(DreamcastParseError::MissingDreamcastMagic) => Err(ParseError::MagicNotFound),
            Err(DreamcastParseError::InvalidDreamcastIpHeader) => Err(ParseError::InvalidHeader),
        }
    }
}

impl RomInfo for DreamcastDisc {
    fn console(&self) -> (r: &'static str)
        ensures
            r@ == "Sega Dreamcast"@,
    {
        "Sega Dreamcast"
    }

    fn dat_meta(&self) -> (r: DatMeta)
        ensures
            opt_view(r.title) == spec_non_empty(self.ip_bin.title@),
            opt_view(r.region) == spec_dat_region(
                self.ip_bin.area_codes@.contains('J'),
                self.ip_bin.area_codes@.contains('U'),
                self.ip_bin.area_codes@.contains('E'),
            ),
            opt_view(r.version) == spec_non_empty(self.ip_bin.version@),
            opt_view(r.date) == spec_non_empty(self.ip_bin.release_date@),
            opt_view(r.manufacturer) == match self.ip_bin.producer {
                Some(p) => spec_non_empty(p@),
                None => None,
            },
            opt_view(r.serial) == spec_non_empty(self.ip_bin.product_number@),
            r.machine_id is None,
    {
        let manufacturer = match &self.ip_bin.producer {
            Some(p) => non_empty(p.as_str()),
            None => None,
        };
        DatMeta {
            title: non_empty(self.ip_bin.title.as_str()),
            region: dat_region_from_area_codes(self.ip_bin.area_codes.as_str()),
            version: non_empty(self.ip_bin.version.as_str()),
            date: non_empty(self.ip_bin.release_date.as_str()),
            manufacturer,
            serial: non_empty(self.ip_bin.product_number.as_str()),
            machine_id: None,
        }
    }
}

impl RomHash for DreamcastDisc {
    fn sha1(&self) -> (r: [u8; 20])
        ensures
            r@ == self.rom_sha1@,
    {
        self.rom_sha1
    }
}

impl Title for DreamcastDisc {
    fn title(&self) -> (r: &str)
        ensures
            r@ == self.ip_bin.title@,
    {
        self.ip_bin.title.as_str()
    }
}

// ---------------------------------------------------------------------------
// Report
// ---------------------------------------------------------------------------

/// The report of the disc: its IP.BIN, volume descriptor and digest.
pub open spec fn dreamcast_report(i: DreamcastDisc) -> Seq<char> {
    ip_report(i.ip_bin) + "\n"@ + match i.pvd {
        Some(p) => pvd_report(p),
        None => Seq::empty(),
    } + sha1_text(i.rom_sha1@) + "\n"@
}

impl DreamcastDisc {
    /// The report the inspector prints for the disc.
    pub fn describe(&self) -> (r: String)
        ensures
            r@ == dreamcast_report(*self),
    {
        let mut t: Vec<char> = Vec::new();
        let ip = self.ip_bin.describe();
        append_str(&mut t, ip.as_str());
        append_str(&mut t, "\n");
        if let Some(p) = &self.pvd {
            let d = p.describe();
            append_str(&mut t, d.as_str());
        }
        push_sha1(&mut t, &self.rom_sha1);
        append_str(&mut t, "\n");
        assert(t@ =~= dreamcast_report(*self));
        crate::ext::string_from_chars(&t)
    }
}

} // verus!
