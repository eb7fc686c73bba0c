//! ISO 9660 Primary Volume Descriptor parser.  The PVD lies at sector 16;
//! its byte offset depends on the sector format.

use super::sector::{
    detect_sector_format, sector_data_offset, spec_detect_sector_format, spec_sector_data_offset,
    SectorFormat,
};
use crate::bytes::{read_u32_le, spec_u32_le};
use crate::ext::string_from_chars;
use crate::text::{append_str, field_text, lossy_trim_chars, spec_field_text, spec_lossy_trim, sub_chars};
use super::sega_ip::{nonempty_line, push_nonempty_line};
use vstd::prelude::*;

verus! {

pub struct PrimaryVolumeDescriptor {
    pub system_id: String,
    pub volume_id: String,
    pub volume_size: u32,
    pub publisher: String,
    pub data_preparer: String,
    pub application: String,
    pub creation_date: String,
    pub sector_format: SectorFormat,
}

/// Where the PVD starts for the sector format the buffer shows.
pub open spec fn pvd_offset(b: Seq<u8>) -> int {
    spec_sector_data_offset(16, spec_detect_sector_format(b))
}

/// Descriptor type 1 followed by the `CD001` standard identifier at `off`.
pub open spec fn spec_check_pvd_at(b: Seq<u8>, off: int) -> bool {
    b.len() >= off + 6 && b[off] == 1 && b[off + 1] == 0x43 && b[off + 2] == 0x44 && b[off + 3]
        == 0x30 && b[off + 4] == 0x30 && b[off + 5] == 0x31
}

pub open spec fn spec_has_pvd(b: Seq<u8>) -> bool {
    spec_check_pvd_at(b, pvd_offset(b))
}

/// A PVD is present and long enough to hold its creation date.
pub open spec fn spec_parse_pvd_ok(b: Seq<u8>) -> bool {
    spec_has_pvd(b) && b.len() - pvd_offset(b) >= 0x32D + 17
}

pub open spec fn is_ascii_digit(c: char) -> bool {
    '0' <= c && c <= '9'
}

/// `YYYYMMDD...` digits formatted as `YYYY-MM-DD`; other text unchanged.
pub open spec fn spec_format_pvd_date(s: Seq<char>) -> Seq<char> {
    if s.len() >= 8 && (forall|i: int| 0 <= i < s.len() ==> #[trigger] is_ascii_digit(s[i])) {
        s.subrange(0, 4) + seq!['-'] + s.subrange(4, 6) + seq!['-'] + s.subrange(6, 8)
    } else {
        s
    }
}

/// The creation date field (16 digit bytes at `off`), formatted.
pub open spec fn spec_extract_date(b: Seq<u8>, off: int) -> Seq<char> {
    if b.len() < off + 17 {
        Seq::empty()
    } else {
        spec_format_pvd_date(spec_lossy_trim(b.subrange(off, off + 16)))
    }
}

/// The system identifier field of the descriptor.
pub open spec fn pvd_system_id(b: Seq<u8>) -> Seq<char> {
    spec_field_text(b.skip(pvd_offset(b)), 0x08, 32)
}

/// The descriptor fields a successful parse reads.
pub open spec fn pvd_matches(b: Seq<u8>, p: PrimaryVolumeDescriptor) -> bool {
    let d = b.skip(pvd_offset(b));
    &&& p.system_id@ == spec_field_text(d, 0x08, 32)
    &&& p.volume_id@ == spec_field_text(d, 0x28, 32)
    &&& p.volume_size == spec_u32_le(d, 0x50)
    &&& p.publisher@ == spec_field_text(d, 0x11E, 128)
    &&& p.data_preparer@ == spec_field_text(d, 0x19E, 128)
    &&& p.application@ == spec_field_text(d, 0x21E, 128)
    &&& p.creation_date@ == spec_extract_date(d, 0x32D)
    &&& p.sector_format == spec_detect_sector_format(b)
}

fn check_pvd_at(buffer: &[u8], offset: usize) -> (r: bool)
    requires
        offset <= 16 * 2352 + 24,
    ensures
        r == spec_check_pvd_at(buffer@, offset as int),
{
    if buffer.len() < offset + 6 {
        return false;
    }
    buffer[offset] == 1 && buffer[offset + 1] == 0x43 && buffer[offset + 2] == 0x44
        && buffer[offset + 3] == 0x30 && buffer[offset + 4] == 0x30 && buffer[offset + 5] == 0x31
}

/// Check if the buffer holds an ISO 9660 PVD.
pub fn has_pvd(buffer: &[u8]) -> (r: bool)
    ensures
        r == spec_has_pvd(buffer@),
{
    let format = detect_sector_format(buffer);
    let offset = sector_data_offset(16, format);
    check_pvd_at(buffer, offset)
}

fn format_pvd_date(s: &Vec<char>) -> (r: Vec<char>)
    ensures
        r@ == spec_format_pvd_date(s@),
{
    if s.len() < 8 {
        return sub_chars(s, 0, s.len());
    }
    let mut i: usize = 0;
    while i < s.len()
        invariant
            i <= s.len(),
            forall|j: int| 0 <= j < i ==> #[trigger] is_ascii_digit(s@[j]),
        decreases s.len() - i,
    {
        if !('0' <= s[i] && s[i] <= '9') {
            assert(!is_ascii_digit(s@[i as int]));
            let r = sub_chars(s, 0, s.len());
            assert(r@ =~= s@);
            return r;
        }
        i += 1;
    }
    let mut out = sub_chars(s, 0, 4);
    out.push('-');
    out.push(s[4]);
    out.push(s[5]);
    out.push('-');
    out.push(s[6]);
    out.push(s[7]);
    assert(out@ =~= spec_format_pvd_date(s@));
    out
}

fn extract_date(buffer: &[u8], offset: usize) -> (r: String)
    requires
        offset <= 0x32D,
    ensures
        r@ == spec_extract_date(buffer@, offset as int),
{
    if buffer.len() < offset + 17 {
        return String::new();
    }
    let raw = &buffer[offset..offset + 16];
    let date = lossy_trim_chars(raw);
    let formatted = format_pvd_date(&date);
    string_from_chars(&formatted)
}

/// Parse the Primary Volume Descriptor from an ISO/BIN image.
pub fn parse_pvd(buffer: &[u8]) -> (r: Option<PrimaryVolumeDescriptor>)
    ensures
        r is Some <==> spec_parse_pvd_ok(buffer@),
        r matches Some(p) ==> pvd_matches(buffer@, p),
{
    let sector_format = detect_sector_format(buffer);
    let offset = sector_data_offset(16, sector_format);
    if !check_pvd_at(buffer, offset) {
        return None;
    }
    let pvd = &buffer[offset..buffer.len()];
    assert(pvd@ =~= buffer@.skip(offset as int));
    if pvd.len() < 0x32D + 17 {
        return None;
    }
    Some(PrimaryVolumeDescriptor {
        system_id: field_text(pvd, 0x08, 32),
        volume_id: field_text(pvd, 0x28, 32),
        volume_size: read_u32_le(pvd, 0x50),
        publisher: field_text(pvd, 0x11E, 128),
        data_preparer: field_text(pvd, 0x19E, 128),
        application: field_text(pvd, 0x21E, 128),
        creation_date: extract_date(pvd, 0x32D),
        sector_format,
    })
}

// ---------------------------------------------------------------------------
// Report
// ---------------------------------------------------------------------------

/// The report lines of a primary volume descriptor.
pub open spec fn pvd_report(p: PrimaryVolumeDescriptor) -> Seq<char> {
    "Volume ID: "@ + p.volume_id@ + "\n"@ + nonempty_line("System ID: "@, p.system_id@) + nonempty_line(
        "Publisher: "@,
        p.publisher@,
    ) + nonempty_line("Data Preparer: "@, p.data_preparer@) + nonempty_line(
        "Application: "@,
        p.application@,
    ) + nonempty_line("Creation Date: "@, p.creation_date@)
}

impl PrimaryVolumeDescriptor {
    /// The lines the inspector prints for the volume descriptor.
    pub fn describe(&self) -> (r: String)
        ensures
            r@ == pvd_report(*self),
    {
        let mut t: Vec<char> = Vec::new();
        append_str(&mut t, "Volume ID: ");
        append_str(&mut t, self.volume_id.as_str());
        append_str(&mut t, "\n");
        push_nonempty_line(&mut t, "System ID: ", self.system_id.as_str());
        push_nonempty_line(&mut t, "Publisher: ", self.publisher.as_str());
        push_nonempty_line(&mut t, "Data Preparer: ", self.data_preparer.as_str());
        push_nonempty_line(&mut t, "Application: ", self.application.as_str());
        push_nonempty_line(&mut t, "Creation Date: ", self.creation_date.as_str());
        assert(t@ =~= pvd_report(*self));
        string_from_chars(&t)
    }
}

/// A creation date of at least eight digits `YYYYMMDD...` is written
/// `YYYY-MM-DD`: the year from digits 0-3, the month from digits 4-5, the
/// day from digits 6-7; any other text is kept as it is.
pub proof fn law_pvd_date_layout(s: Seq<char>)
    ensures
        (s.len() >= 8 && forall|i: int| 0 <= i < s.len() ==> '0' <= #[trigger] s[i] <= '9') ==> {
            let r = spec_format_pvd_date(s);
            &&& r.len() == 10
            &&& r[0] == s[0] && r[1] == s[1] && r[2] == s[2] && r[3] == s[3]
            &&& r[4] == '-'
            &&& r[5] == s[4] && r[6] == s[5]
            &&& r[7] == '-'
            &&& r[8] == s[6] && r[9] == s[7]
        },
        !(s.len() >= 8 && forall|i: int| 0 <= i < s.len() ==> '0' <= #[trigger] s[i] <= '9')
            ==> spec_format_pvd_date(s) == s,
{
    if s.len() >= 8 && forall|i: int| 0 <= i < s.len() ==> '0' <= #[trigger] s[i] <= '9' {
        assert(forall|i: int| 0 <= i < s.len() ==> #[trigger] is_ascii_digit(s[i]));
    } else {
        if s.len() >= 8 && (forall|i: int| 0 <= i < s.len() ==> #[trigger] is_ascii_digit(s[i])) {
            assert forall|i: int| 0 <= i < s.len() implies '0' <= #[trigger] s[i] <= '9' by {
                assert(is_ascii_digit(s[i]));
            }
        }
    }
}

} // verus!
