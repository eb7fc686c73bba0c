//! Sega CD / Mega CD discs: the `SEGADISCSYSTEM` boot header followed by a
//! Genesis-style header at logical offset 0x100.

use crate::bytes::{matches_at, spec_matches_at};
use crate::ext::{compute_sha1, spec_sha1, spec_to_uppercase, string_from_chars, to_uppercase};
use crate::systems::disc::pvd::{parse_pvd, pvd_matches, spec_parse_pvd_ok, PrimaryVolumeDescriptor};
use crate::systems::disc::sector::{
    detect_sector_format, logical_to_physical, sector_data_offset, spec_detect_sector_format,
    spec_logical_to_physical, spec_sector_data_offset, SectorFormat,
};
use crate::systems::disc::sega_ip::{dat_region_from_area_codes, spec_dat_region};
use crate::systems::helpers::{first_non_empty, non_empty, spec_first_non_empty, spec_non_empty, str_views};
use crate::text::{field_text, spec_field_text};
use crate::traits::{opt_view, DatMeta, ParseError, RomHash, RomInfo, Title};
use crate::report::{push_sha1, sha1_text};
use crate::systems::disc::{decode_regions, spec_decode_regions};
use crate::systems::disc::pvd::pvd_report;
use crate::systems::disc::sega_ip::{nonempty_line, push_nonempty_line};
use crate::systems::genesis::publisher::{publisher_from_copyright, spec_publisher_from_copyright};
use crate::text::{append_chars, append_str, str_eq};
use vstd::prelude::*;

verus! {

/// `SEGADISCSYSTEM`.
pub open spec fn spec_segacd_magic() -> Seq<u8> {
    seq![0x53u8, 0x45, 0x47, 0x41, 0x44, 0x49, 0x53, 0x43, 0x53, 0x59, 0x53, 0x54, 0x45, 0x4D]
}

fn segacd_magic() -> (r: [u8; 14])
    ensures
        r@ == spec_segacd_magic(),
{
    let r: [u8; 14] = [0x53, 0x45, 0x47, 0x41, 0x44, 0x49, 0x53, 0x43, 0x53, 0x59, 0x53, 0x54, 0x45, 0x4D];
    assert(r@ =~= spec_segacd_magic());
    r
}

/// How far the magic is searched for when it is not where the sector format puts it.
pub const MAGIC_SEARCH_LIMIT: usize = 0x8000;

/// A Sega CD disc.
pub struct SegaCdDisc {
    pub domestic_title: String,
    pub overseas_title: String,
    pub copyright: String,
    pub product_code: String,
    pub regions: String,
    pub hardware_id: String,
    pub rom_sha1: [u8; 20],
    pub pvd: Option<PrimaryVolumeDescriptor>,
}

/// Why a buffer is not a Sega CD disc.
#[derive(Clone, Copy, Debug, PartialEq, Eq, Structural)]
pub enum SegaCdParseError {
    MissingSegaCdMagic,
}

/// Where user data of sector 0 starts for the buffer's sector format.
pub open spec fn scd_base(b: Seq<u8>) -> int {
    spec_sector_data_offset(0, spec_detect_sector_format(b))
}

/// The first position below `limit` (from `i` on) where the magic fits and occurs.
pub open spec fn scd_search(b: Seq<u8>, i: int, limit: int) -> Option<int>
    decreases limit - i,
{
    if i < 0 || i + 14 > limit {
        None
    } else if spec_matches_at(b, i, spec_segacd_magic()) {
        Some(i)
    } else {
        scd_search(b, i + 1, limit)
    }
}

/// The magic's position: at the start of sector 0's user data, else the
/// first occurrence within the first 0x8000 bytes.
pub open spec fn spec_find_header_base(b: Seq<u8>) -> Option<int> {
    if spec_matches_at(b, scd_base(b), spec_segacd_magic()) {
        Some(scd_base(b))
    } else {
        scd_search(
            b,
            0,
            if b.len() < 0x8000 {
                b.len() as int
            } else {
                0x8000
            },
        )
    }
}

pub fn find_header_base(buffer: &[u8]) -> (r: Option<(usize, SectorFormat)>)
    ensures
        match r {
            Some((o, f)) => spec_find_header_base(buffer@) == Some(o as int) && f
                == spec_detect_sector_format(buffer@),
            None => spec_find_header_base(buffer@) is None,
        },
{
    let magic = segacd_magic();
    let format = detect_sector_format(buffer);
    let base = sector_data_offset(0, format);
    if matches_at(buffer, base, magic.as_slice()) {
        return Some((base, format));
    }
    let limit = if buffer.len() < MAGIC_SEARCH_LIMIT {
        buffer.len()
    } else {
        MAGIC_SEARCH_LIMIT
    };
    let mut i: usize = 0;
    while i + 14 <= limit
        invariant
            limit <= buffer.len(),
            limit <= 0x8000,
            i <= limit,
            limit == (if buffer@.len() < 0x8000 {
                buffer@.len() as int
            } else {
                0x8000
            }),
            format == spec_detect_sector_format(buffer@),
            !spec_matches_at(buffer@, scd_base(buffer@), spec_segacd_magic()),
            magic@ == spec_segacd_magic(),
            scd_search(buffer@, 0, limit as int) == scd_search(buffer@, i as int, limit as int),
        decreases limit - i,
    {
        if matches_at(buffer, i, magic.as_slice()) {
            return Some((i, format));
        }
        i += 1;
    }
    None
}

/// Where the Genesis-style header starts: logical 0x100 mapped through the
/// sector format, shifted with the magic when it was found elsewhere.
pub open spec fn spec_header_offset(f: SectorFormat, magic_offset: int, b: Seq<u8>) -> int {
    let result = spec_logical_to_physical(0x100, f);
    let expected = spec_sector_data_offset(0, f);
    if magic_offset != expected {
        let test = magic_offset + 2352;
        if b.len() > test + 4 && b.subrange(test, test + 4) == b.subrange(
            magic_offset,
            magic_offset + 4,
        ) {
            magic_offset + result - expected
        } else {
            magic_offset + 0x100
        }
    } else {
        result
    }
}

pub fn calculate_header_offset(format: SectorFormat, magic_offset: usize, buffer: &[u8]) -> (r: usize)
    requires
        magic_offset + 14 <= buffer.len(),
        magic_offset + 0x200 <= usize::MAX,
    ensures
        r == spec_header_offset(format, magic_offset as int, buffer@),
{
    let result = logical_to_physical(0x100, format);
    let expected_base = sector_data_offset(0, format);
    if magic_offset != expected_base {
        if buffer.len() > 2356 && magic_offset < buffer.len() - 2356 {
            let test_offset = magic_offset + 2352;
            let same = buffer[test_offset] == buffer[magic_offset] && buffer[test_offset + 1]
                == buffer[magic_offset + 1] && buffer[test_offset + 2] == buffer[magic_offset + 2]
                && buffer[test_offset + 3] == buffer[magic_offset + 3];
            proof {
                let x = buffer@.subrange(test_offset as int, test_offset + 4);
                let y = buffer@.subrange(magic_offset as int, magic_offset + 4);
                if same {
                    assert(x =~= y);
                } else {
                    if x == y {
                        assert(x[0] == y[0] && x[1] == y[1] && x[2] == y[2] && x[3] == y[3]);
                    }
                }
            }
            if same {
                return magic_offset + result - expected_base;
            }
        }
        return magic_offset + 0x100;
    }
    result
}

/// What a parse reads, with the header at `h`.
pub open spec fn scd_fields_match(b: Seq<u8>, h: int, d: SegaCdDisc) -> bool {
    let hd = b.skip(h);
    &&& d.hardware_id@ == spec_field_text(hd, 0x00, 16)
    &&& d.copyright@ == spec_field_text(hd, 0x10, 16)
    &&& d.domestic_title@ == spec_field_text(hd, 0x20, 48)
    &&& d.overseas_title@ == spec_field_text(hd, 0x50, 48)
    &&& d.product_code@ == spec_field_text(hd, 0x80, 14)
    &&& d.regions@ == spec_to_uppercase(spec_field_text(hd, 0xF0, 16))
    &&& (d.pvd is Some) == spec_parse_pvd_ok(b)
    &&& d.pvd matches Some(p) ==> pvd_matches(b, p)
}

/// What a successful parse reads: the header fields when the header fits,
/// only the SHA-1 otherwise.
pub open spec fn scd_matches(b: Seq<u8>, d: SegaCdDisc) -> bool {
    let m = spec_find_header_base(b)->0;
    let h = spec_header_offset(spec_detect_sector_format(b), m, b);
    &&& d.rom_sha1@ == spec_sha1(b)
    &&& if b.len() < h + 0x200 {
        d.hardware_id@.len() == 0 && d.copyright@.len() == 0 && d.domestic_title@.len() == 0
            && d.overseas_title@.len() == 0 && d.product_code@.len() == 0 && d.regions@.len() == 0
            && d.pvd is None
    } else {
        scd_fields_match(b, h, d)
    }
}

/// Where the header of a disc with the magic starts.
pub open spec fn scd_header_at(b: Seq<u8>) -> int {
    spec_header_offset(spec_detect_sector_format(b), spec_find_header_base(b)->0, b)
}

/// A header text field of a disc with the magic, empty when the header is cut short.
pub open spec fn scd_text(b: Seq<u8>, off: int, len: int) -> Seq<char> {
    let h = scd_header_at(b);
    if b.len() < h + 0x200 {
        Seq::empty()
    } else {
        spec_field_text(b.skip(h), off, len)
    }
}

/// The region field of a disc with the magic, upper-cased.
pub open spec fn scd_regions(b: Seq<u8>) -> Seq<char> {
    let h = scd_header_at(b);
    if b.len() < h + 0x200 {
        Seq::empty()
    } else {
        spec_to_uppercase(spec_field_text(b.skip(h), 0xF0, 16))
    }
}

proof fn lemma_search_fits(b: Seq<u8>, i: int, limit: int)
    requires
        limit <= b.len(),
    ensures
        scd_search(b, i, limit) matches Some(o) ==> 0 <= o && o + 14 <= limit,
    decreases limit - i,
{
    if 0 <= i && i + 14 <= limit {
        lemma_search_fits(b, i + 1, limit);
    }
}

pub fn parse_sega_cd_disc(buffer: &[u8]) -> (r: Result<SegaCdDisc, SegaCdParseError>)
    ensures
        match r {
            Ok(d) => spec_find_header_base(buffer@) is Some && scd_matches(buffer@, d),
            Err(e) => spec_find_header_base(buffer@) is None && e == SegaCdParseError::MissingSegaCdMagic,
        },
{
    let (magic_offset, format) = match find_header_base(buffer) {
        Some(x) => x,
        None => {
            return Err(SegaCdParseError::MissingSegaCdMagic);
        },
    };
    proof {
        lemma_search_fits(
            buffer@,
            0,
            if buffer@.len() < 0x8000 {
                buffer@.len() as int
            } else {
                0x8000
            },
        );
    }
    let rom_sha1 = compute_sha1(buffer);
    let header_offset = calculate_header_offset(format, magic_offset, buffer);
    if header_offset > buffer.len() || buffer.len() - header_offset < 0x200 {
        return Ok(
            SegaCdDisc {
                domestic_title: String::new(),
                overseas_title: String::new(),
                copyright: String::new(),
                product_code: String::new(),
                regions: String::new(),
                hardware_id: String::new(),
                rom_sha1,
                pvd: None,
            },
        );
    }
    let header = &buffer[header_offset..buffer.len()];
    assert(header@ =~= buffer@.skip(header_offset as int));
    let pvd = parse_pvd(buffer);
    let regions_raw = field_text(header, 0xF0, 16);
    let region_chars = crate::text::chars_of(regions_raw.as_str());
    let regions_upper = to_uppercase(&region_chars);
    Ok(
        SegaCdDisc {
            hardware_id: field_text(header, 0x00, 16),
            copyright: field_text(header, 0x10, 16),
            domestic_title: field_text(header, 0x20, 48),
            overseas_title: field_text(header, 0x50, 48),
            product_code: field_text(header, 0x80, 14),
            regions: string_from_chars(&regions_upper),
            rom_sha1,
            pvd,
        },
    )
}

impl SegaCdDisc {
    /// Parse a Sega CD disc image.
    pub fn try_from(buffer: &[u8]) -> (r: Result<SegaCdDisc, ParseError>)
        ensures
            match r {
                Ok(d) => spec_find_header_base(buffer@) is Some && scd_matches(buffer@, d),
                Err(e) => spec_find_header_base(buffer@) is None && e == ParseError::MagicNotFound,
            },
    {
        match parse_sega_cd_disc(buffer) {
            Ok(d) => Ok(d),
            Err(_) => Err(ParseError::MagicNotFound),
        }
    }
}

impl RomInfo for SegaCdDisc {
    fn console(&self) -> (r: &'static str)
        ensures
            r@ == "Sega CD/Mega CD"@,
    {
        "Sega CD/Mega CD"
    }

    fn dat_meta(&self) -> (r: DatMeta)
        ensures
            opt_view(r.title) == spec_first_non_empty(
                seq![self.overseas_title@, self.domestic_title@],
            ),
            opt_view(r.region) == spec_dat_region(
                self.regions@.contains('J'),
                self.regions@.contains('U'),
                self.regions@.contains('E'),
            ),
            opt_view(r.serial) == spec_non_empty(self.product_code@),
            r.version is None,
            r.date is None,
            r.manufacturer is None,
            r.machine_id is None,
    {
        let titles: [&str; 2] = [self.overseas_title.as_str(), self.domestic_title.as_str()];
        assert(str_views(titles@) =~= seq![self.overseas_title@, self.domestic_title@]);
        DatMeta {
            title: first_non_empty(titles.as_slice()),
            region: dat_region_from_area_codes(self.regions.as_str()),
            version: None,
            date: None,
            manufacturer: None,
            serial: non_empty(self.product_code.as_str()),
            machine_id: None,
        }
    }
}

impl RomHash for SegaCdDisc {
    fn sha1(&self) -> (r: [u8; 20])
        ensures
            r@ == self.rom_sha1@,
    {
        self.rom_sha1
    }
}

impl Title for SegaCdDisc {
    fn title(&self) -> (r: &str)
        ensures
            r@ == if self.overseas_title@.len() > 0 {
                self.overseas_title@
            } else {
                self.domestic_title@
            },
    {
        if !self.overseas_title.as_str().is_empty() {
            self.overseas_title.as_str()
        } else {
            self.domestic_title.as_str()
        }
    }
}

// ---------------------------------------------------------------------------
// Report
// ---------------------------------------------------------------------------

/// The title, product-code and region lines that are present.
pub open spec fn scd_report_head(i: SegaCdDisc) -> Seq<char> {
    nonempty_line("Domestic Title: "@, i.domestic_title@) + (if i.overseas_title@.len() > 0
        && i.overseas_title@ != i.domestic_title@ {
        "Overseas Title: "@ + i.overseas_title@ + "\n"@
    } else {
        Seq::empty()
    }) + nonempty_line("Product Code: "@, i.product_code@) + (if i.regions@.len() > 0 {
        "Region: "@ + spec_decode_regions(i.regions@) + "\n"@
    } else {
        Seq::empty()
    })
}

/// The copyright line, with the publisher's name where the copyright names
/// a known one.
pub open spec fn scd_copyright_line(c: Seq<char>) -> Seq<char> {
    if c.len() > 0 {
        match spec_publisher_from_copyright(c) {
            Some(name) => "Copyright: "@ + c + " ("@ + name + ")\n"@,
            None => "Copyright: "@ + c + "\n"@,
        }
    } else {
        Seq::empty()
    }
}

/// The report of a Sega CD disc.
pub open spec fn scd_report(i: SegaCdDisc) -> Seq<char> {
    scd_report_head(i) + scd_copyright_line(i.copyright@) + match i.pvd {
        Some(p) => pvd_report(p),
        None => Seq::empty(),
    } + sha1_text(i.rom_sha1@) + "\n"@
}

fn push_scd_head(out: &mut Vec<char>, i: &SegaCdDisc)
    ensures
        final(out)@ == old(out)@ + scd_report_head(*i),
{
    let mut t: Vec<char> = Vec::new();
    push_nonempty_line(&mut t, "Domestic Title: ", i.domestic_title.as_str());
    if !i.overseas_title.as_str().is_empty() && !str_eq(i.overseas_title.as_str(), i.domestic_title.as_str()) {
        append_str(&mut t, "Overseas Title: ");
        append_str(&mut t, i.overseas_title.as_str());
        append_str(&mut t, "\n");
    }
    push_nonempty_line(&mut t, "Product Code: ", i.product_code.as_str());
    if !i.regions.as_str().is_empty() {
        append_str(&mut t, "Region: ");
        append_str(&mut t, decode_regions(i.regions.as_str()));
        append_str(&mut t, "\n");
    }
    assert(t@ =~= scd_report_head(*i));
    append_chars(out, &t);
}

fn push_scd_copyright(out: &mut Vec<char>, c: &str)
    ensures
        final(out)@ == old(out)@ + scd_copyright_line(c@),
{
    let mut t: Vec<char> = Vec::new();
    if !c.is_empty() {
        match publisher_from_copyright(c) {
            Some(name) => {
                append_str(&mut t, "Copyright: ");
                append_str(&mut t, c);
                append_str(&mut t, " (");
                append_str(&mut t, name);
                append_str(&mut t, ")\n");
            },
            None => {
                append_str(&mut t, "Copyright: ");
                append_str(&mut t, c);
                append_str(&mut t, "\n");
            },
        }
    }
    assert(t@ =~= scd_copyright_line(c@));
    append_chars(out, &t);
}

impl SegaCdDisc {
    /// The report the inspector prints for the disc.
    pub fn describe(&self) -> (r: String)
        ensures
            r@ == scd_report(*self),
    {
        let mut t: Vec<char> = Vec::new();
        push_scd_head(&mut t, self);
        push_scd_copyright(&mut t, self.copyright.as_str());
        if let Some(p) = &self.pvd {
            let d = p.describe();
            append_str(&mut t, d.as_str());
        }
        push_sha1(&mut t, &self.rom_sha1);
        append_str(&mut t, "\n");
        assert(t@ =~= scd_report(*self));
        string_from_chars(&t)
    }
}

} // verus!
