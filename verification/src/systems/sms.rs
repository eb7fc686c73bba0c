//! Sega Master System and Game Gear cartridges (the `TMR SEGA` header).

use crate::bytes::{matches_at, read_u16_le, spec_matches_at, spec_u16_le};
use crate::ext::{compute_sha1, spec_sha1, string_from_chars};
use crate::report::{checksum_text, hex_min, hex_padded, push_checksum, push_dec, push_hex_min, push_hex_padded, push_sha1, sha1_text};
use crate::systems::snes::detection::{sum16, sum16_prefix};
use crate::text::{append_chars, append_str, decimal_string, spec_decimal};
use crate::traits::{meta_view, opt_view, DatMeta, ParseError, RomHash, RomInfo, StoredChecksum};
use vstd::prelude::*;

verus! {

/// `TMR SEGA`.
pub open spec fn spec_tmr_sega() -> Seq<u8> {
    seq![0x54u8, 0x4D, 0x52, 0x20, 0x53, 0x45, 0x47, 0x41]
}

fn tmr_sega() -> (r: [u8; 8])
    ensures
        r@ == spec_tmr_sega(),
{
    let r: [u8; 8] = [0x54, 0x4D, 0x52, 0x20, 0x53, 0x45, 0x47, 0x41];
    assert(r@ =~= spec_tmr_sega());
    r
}

/// Why a buffer is not a Master System or Game Gear image.
#[derive(Clone, Copy, Debug, PartialEq, Eq, Structural)]
pub enum SmsParseError {
    HeaderSignatureNotFound,
}

/// Which console the region code names.
#[derive(Debug, Clone, Copy, PartialEq, Eq, Structural)]
pub enum SmsConsole {
    MasterSystem,
    GameGear,
}

/// A parsed Master System / Game Gear header.
pub struct SmsRomInfo {
    pub console: SmsConsole,
    pub product_code: u32,
    pub version: u8,
    pub region_code: u8,
    pub rom_size_code: u8,
    pub file_size: usize,
    pub stored_checksum: u16,
    pub calculated_checksum: u16,
    pub header_offset: usize,
    pub size_header_mismatch: bool,
    pub rom_sha1: [u8; 20],
}

/// The header candidates, in the order they are tried.
pub open spec fn sms_candidate(k: int) -> int {
    if k == 0 {
        0x7FF0
    } else if k == 1 {
        0x3FF0
    } else {
        0x1FF0
    }
}

/// The first candidate from `k` on with a whole header and the signature.
pub open spec fn sms_header_from(b: Seq<u8>, k: int) -> Option<int>
    decreases 3 - k,
{
    if k < 0 || k >= 3 {
        None
    } else {
        let o = sms_candidate(k);
        if b.len() >= o + 16 && spec_matches_at(b, o, spec_tmr_sega()) {
            Some(o)
        } else {
            sms_header_from(b, k + 1)
        }
    }
}

proof fn lemma_header_fits(b: Seq<u8>, k: int)
    ensures
        sms_header_from(b, k) matches Some(o) ==> 0x1FF0 <= o <= 0x7FF0 && o + 16 <= b.len(),
    decreases 3 - k,
{
    if 0 <= k < 3 {
        lemma_header_fits(b, k + 1);
    }
}

/// Where the header sits for a ROM size code: 0x1FF0 for 8 KiB, 0x3FF0 for
/// 16 KiB, 0x7FF0 for anything larger.
pub open spec fn spec_expected_header_offset(code: u8) -> usize {
    if code == 0xA {
        0x1FF0
    } else if code == 0xB {
        0x3FF0
    } else {
        0x7FF0
    }
}

pub fn expected_header_offset_for_size(rom_size_code: u8) -> (r: usize)
    ensures
        r == spec_expected_header_offset(rom_size_code),
{
    if rom_size_code == 0xA {
        0x1FF0
    } else if rom_size_code == 0xB {
        0x3FF0
    } else {
        0x7FF0
    }
}

/// The 16-bit sum of `b[s..e]`, or of everything from `s` (clamped to the
/// end) when `e` runs past the end.
pub open spec fn sms_sum_range(b: Seq<u8>, s: int, e: int) -> u16 {
    if e > b.len() {
        let lo = if s < b.len() {
            s
        } else {
            b.len() as int
        };
        sum16(b.skip(lo))
    } else {
        sum16(b.subrange(s, e))
    }
}

fn sum_range(b: &[u8], s: usize, e: usize) -> (r: u16)
    requires
        s <= e,
    ensures
        r == sms_sum_range(b@, s as int, e as int),
{
    if e > b.len() {
        let lo = if s < b.len() {
            s
        } else {
            b.len()
        };
        let tail = &b[lo..b.len()];
        assert(tail@ =~= b@.skip(lo as int));
        let r = sum16_prefix(tail, tail.len());
        assert(tail@.take(tail.len() as int) =~= tail@);
        r
    } else {
        let part = &b[s..e];
        let r = sum16_prefix(part, part.len());
        assert(part@.take(part.len() as int) =~= part@);
        r
    }
}

/// The end of the extra checksummed range (from 0x8000) for a size code,
/// when the code has one.
pub open spec fn sms_extra_end(code: u8) -> Option<int> {
    if code == 0xE {
        Some(0x10000)
    } else if code == 0xF {
        Some(0x20000)
    } else if code == 0x0 {
        Some(0x40000)
    } else if code == 0x1 {
        Some(0x80000)
    } else if code == 0x2 {
        Some(0x100000)
    } else {
        None
    }
}

/// The checksum: everything before the header, plus 0x8000 up to the
/// declared size for images over 32 KiB, modulo 65536.
pub open spec fn spec_sms_checksum(b: Seq<u8>, header_offset: int, code: u8) -> u16 {
    let base = sms_sum_range(b, 0, header_offset);
    match sms_extra_end(code) {
        Some(e) => vstd::wrapping::u16_specs::wrapping_add(base, sms_sum_range(b, 0x8000, e)),
        None => base,
    }
}

pub fn calculate_checksum(buffer: &[u8], header_offset: usize, rom_size_code: u8) -> (r: u16)
    ensures
        r == spec_sms_checksum(buffer@, header_offset as int, rom_size_code),
{
    let base = sum_range(buffer, 0, header_offset);
    let end: usize = if rom_size_code == 0xE {
        0x10000
    } else if rom_size_code == 0xF {
        0x20000
    } else if rom_size_code == 0x0 {
        0x40000
    } else if rom_size_code == 0x1 {
        0x80000
    } else if rom_size_code == 0x2 {
        0x100000
    } else {
        0
    };
    if end == 0 {
        base
    } else {
        base.wrapping_add(sum_range(buffer, 0x8000, end))
    }
}

/// A product code from its BCD-like header bytes: the two low bytes read
/// as decimal digit pairs, the low nibble of byte 14 as the ten-thousands.
pub open spec fn sms_product_code(h: Seq<u8>) -> u32 {
    let low = h[12];
    let mid = h[13];
    let high = (h[14] % 16) as int;
    let low_dec = (low / 16) as int * 10 + (low % 16) as int;
    let mid_dec = (mid / 16) as int * 10 + (mid % 16) as int;
    (high * 10000 + mid_dec * 100 + low_dec) as u32
}

/// Region codes 5-7 are Game Gear; anything else is Master System.
pub open spec fn spec_sms_console(region: u8) -> SmsConsole {
    if region == 5 || region == 6 || region == 7 {
        SmsConsole::GameGear
    } else {
        SmsConsole::MasterSystem
    }
}

/// What a successful parse reads from the buffer with its header at `off`.
pub open spec fn sms_info_matches(b: Seq<u8>, info: SmsRomInfo) -> bool {
    let off = sms_header_from(b, 0)->0;
    let h = b.subrange(off, off + 16);
    let code = h[14] / 16;
    &&& info.header_offset == off
    &&& info.stored_checksum == spec_u16_le(h, 10)
    &&& info.product_code == sms_product_code(h)
    &&& info.rom_size_code == code
    &&& info.region_code == h[15] / 16
    &&& info.version == h[15] % 16
    &&& info.console == spec_sms_console(h[15] / 16)
    &&& info.size_header_mismatch == (spec_expected_header_offset(code) != off)
    &&& info.calculated_checksum == spec_sms_checksum(b, off, code)
    &&& info.file_size == b.len()
    &&& info.rom_sha1@ == spec_sha1(b)
}

/// Find the `TMR SEGA` header and read it, with the checksum over the range it covers.
pub fn parse_sms_info(buffer: &[u8]) -> (r: Result<SmsRomInfo, SmsParseError>)
    ensures
        match r {
            Ok(info) => sms_header_from(buffer@, 0) is Some && sms_info_matches(buffer@, info),
            Err(e) => sms_header_from(buffer@, 0) is None && e == SmsParseError::HeaderSignatureNotFound,
        },
{
    let sig = tmr_sega();
    let candidates: [usize; 3] = [0x7FF0, 0x3FF0, 0x1FF0];
    let mut k: usize = 0;
    let mut found: Option<usize> = None;
    while k < 3 && found.is_none()
        invariant
            k <= 3,
            candidates@ == seq![0x7FF0usize, 0x3FF0, 0x1FF0],
            sig@ == spec_tmr_sega(),
            found is None ==> sms_header_from(buffer@, 0) == sms_header_from(buffer@, k as int),
            found matches Some(o) ==> sms_header_from(buffer@, 0) == Some(o as int),
        decreases 3 - k,
    {
        let o = candidates[k];
        assert(o == sms_candidate(k as int));
        if buffer.len() >= o + 16 && matches_at(buffer, o, sig.as_slice()) {
            found = Some(o);
        }
        k += 1;
    }
    let header_offset = match found {
        Some(o) => o,
        None => {
            return Err(SmsParseError::HeaderSignatureNotFound);
        },
    };
    proof {
        lemma_header_fits(buffer@, 0);
    }
    let rom_sha1 = compute_sha1(buffer);
    let header = &buffer[header_offset..header_offset + 16];
    let ghost h = buffer@.subrange(header_offset as int, header_offset + 16);
    assert(header@ =~= h);
    let stored_checksum = read_u16_le(header, 10);
    let low = header[12];
    let mid = header[13];
    let high = (header[14] % 16) as u32;
    let low_dec = ((low / 16) as u32) * 10 + (low % 16) as u32;
    let mid_dec = ((mid / 16) as u32) * 10 + (mid % 16) as u32;
    let product_code = high * 10000 + mid_dec * 100 + low_dec;
    let rom_size_code = header[14] / 16;
    let region_code = header[15] / 16;
    let version = header[15] % 16;
    let console = if region_code == 5 || region_code == 6 || region_code == 7 {
        SmsConsole::GameGear
    } else {
        SmsConsole::MasterSystem
    };
    let expected = expected_header_offset_for_size(rom_size_code);
    let size_header_mismatch = expected != header_offset;
    let calculated_checksum = calculate_checksum(buffer, header_offset, rom_size_code);
    Ok(
        SmsRomInfo {
            console,
            product_code,
            version,
            region_code,
            rom_size_code,
            file_size: buffer.len(),
            stored_checksum,
            calculated_checksum,
            header_offset,
            size_header_mismatch,
            rom_sha1,
        },
    )
}

impl SmsRomInfo {
    /// Parse a Master System or Game Gear image.
    pub fn try_from(buffer: &[u8]) -> (r: Result<SmsRomInfo, ParseError>)
        ensures
            match r {
                Ok(info) => sms_header_from(buffer@, 0) is Some && sms_info_matches(buffer@, info),
                Err(e) => sms_header_from(buffer@, 0) is None && e == ParseError::MagicNotFound,
            },
    {
        match parse_sms_info(buffer) {
            Ok(info) => Ok(info),
            Err(_) => Err(ParseError::MagicNotFound),
        }
    }
}

impl RomInfo for SmsRomInfo {
    fn console(&self) -> (r: &'static str)
        ensures
            r@ == match self.console {
                SmsConsole::MasterSystem => "Sega Master System"@,
                SmsConsole::GameGear => "Sega Game Gear"@,
            },
    {
        match self.console {
            SmsConsole::MasterSystem => "Sega Master System",
            SmsConsole::GameGear => "Sega Game Gear",
        }
    }

    fn dat_meta(&self) -> (r: DatMeta)
        ensures
            meta_view(r) == (
                None::<Seq<char>>,
                None::<Seq<char>>,
                None::<Seq<char>>,
                None::<Seq<char>>,
                None::<Seq<char>>,
                if self.product_code > 0 {
                    Some(spec_decimal(self.product_code as nat))
                } else {
                    None::<Seq<char>>
                },
                None::<Seq<char>>,
            ),
    {
        let serial = if self.product_code > 0 {
            Some(decimal_string(self.product_code as u64))
        } else {
            None
        };
        DatMeta {
            title: None,
            region: None,
            version: None,
            date: None,
            manufacturer: None,
            serial,
            machine_id: None,
        }
    }
}

impl StoredChecksum<u16> for SmsRomInfo {
    fn stored_checksum(&self) -> (r: u16)
        ensures
            r == self.stored_checksum,
    {
        self.stored_checksum
    }

    fn calculated_checksum(&self) -> (r: u16)
        ensures
            r == self.calculated_checksum,
    {
        self.calculated_checksum
    }

    fn checksum_matches(&self) -> (r: bool)
        ensures
            r == (self.stored_checksum == self.calculated_checksum),
    {
        self.stored_checksum == self.calculated_checksum
    }
}

impl RomHash for SmsRomInfo {
    fn sha1(&self) -> (r: [u8; 20])
        ensures
            r@ == self.rom_sha1@,
    {
        self.rom_sha1
    }
}

// ---------------------------------------------------------------------------
// Report
// ---------------------------------------------------------------------------

/// The region a region code names, as the report writes it.
pub open spec fn sms_region_name(r: u8) -> Seq<char> {
    if r == 3 {
        "Japan (SMS)"@
    } else if r == 4 {
        "Export (SMS)"@
    } else if r == 5 {
        "Japan (GG)"@
    } else if r == 6 {
        "Export (GG)"@
    } else if r == 7 {
        "International (GG)"@
    } else {
        "Unknown"@
    }
}

fn sms_region_text(r: u8) -> (t: &'static str)
    ensures
        t@ == sms_region_name(r),
{
    if r == 3 {
        "Japan (SMS)"
    } else if r == 4 {
        "Export (SMS)"
    } else if r == 5 {
        "Japan (GG)"
    } else if r == 6 {
        "Export (GG)"
    } else if r == 7 {
        "International (GG)"
    } else {
        "Unknown"
    }
}

/// The ROM size a header size code declares, in bytes.
pub open spec fn sms_header_rom_size(code: u8) -> Option<u64> {
    if code == 0xA {
        Some(8192u64)
    } else if code == 0xB {
        Some(16384u64)
    } else if code == 0xC {
        Some(32768u64)
    } else if code == 0xD {
        Some(49152u64)
    } else if code == 0xE {
        Some(65536u64)
    } else if code == 0xF {
        Some(131072u64)
    } else if code == 0x0 {
        Some(262144u64)
    } else if code == 0x1 {
        Some(524288u64)
    } else if code == 0x2 {
        Some(1048576u64)
    } else {
        None
    }
}

/// The ROM size a header size code declares, in bytes.
pub fn header_rom_size(code: u8) -> (r: Option<u64>)
    ensures
        r == sms_header_rom_size(code),
{
    if code == 0xA {
        Some(8 * 1024)
    } else if code == 0xB {
        Some(16 * 1024)
    } else if code == 0xC {
        Some(32 * 1024)
    } else if code == 0xD {
        Some(48 * 1024)
    } else if code == 0xE {
        Some(64 * 1024)
    } else if code == 0xF {
        Some(128 * 1024)
    } else if code == 0x0 {
        Some(256 * 1024)
    } else if code == 0x1 {
        Some(512 * 1024)
    } else if code == 0x2 {
        Some(1024 * 1024)
    } else {
        None
    }
}

/// The header declares a size other than the file's and there is a stored
/// checksum (which then covers only the declared size).
pub open spec fn sms_size_warning(i: SmsRomInfo) -> bool {
    i.stored_checksum != 0 && match sms_header_rom_size(i.rom_size_code) {
        Some(h) => h != i.file_size as u64,
        None => false,
    }
}

/// Product code, region, version and ROM size lines.
pub open spec fn sms_report_head(i: SmsRomInfo, file_size_text: Seq<char>) -> Seq<char> {
    "Product Code: "@ + spec_decimal(i.product_code as nat) + "\n"@ + "Region: "@ + sms_region_name(
        i.region_code,
    ) + "\n"@ + (if i.version != 0 {
        "Version: "@ + spec_decimal(i.version as nat) + "\n"@
    } else {
        Seq::empty()
    }) + "ROM Size: "@ + file_size_text + "\n"@
}

/// The warning about a declared size other than the file's.
pub open spec fn sms_size_warning_line(i: SmsRomInfo, file_size_text: Seq<char>, header_size_text: Seq<char>) -> Seq<char> {
    if sms_size_warning(i) {
        "Warning: Header declares "@ + header_size_text
            + " (checksum covers only this range), but file is "@ + file_size_text + "\n"@
    } else {
        Seq::empty()
    }
}

/// Header location, checksum (when one is stored) and digest lines.
pub open spec fn sms_report_mid(i: SmsRomInfo) -> Seq<char> {
    "Header Location: 0x"@ + hex_padded(i.header_offset as nat, 4) + "\n"@ + (
    if i.stored_checksum != 0 {
        checksum_text(i.stored_checksum as nat, i.calculated_checksum as nat, 4) + "\n"@
    } else {
        Seq::empty()
    }) + sha1_text(i.rom_sha1@) + "\n"@
}

/// The warning about a header found where the size code does not put it.
pub open spec fn sms_mismatch_line(i: SmsRomInfo) -> Seq<char> {
    if i.size_header_mismatch {
        "Warning: ROM size code (0x"@ + hex_min(i.rom_size_code as nat) + ") expects header at 0x"@
            + hex_padded(spec_expected_header_offset(i.rom_size_code) as nat, 4) + ", but found at 0x"@
            + hex_padded(i.header_offset as nat, 4) + "\n"@
    } else {
        Seq::empty()
    }
}

/// The report of a Master System or Game Gear cartridge, given the file
/// size and the header's declared size as text.
pub open spec fn sms_report(i: SmsRomInfo, file_size_text: Seq<char>, header_size_text: Seq<char>) -> Seq<char> {
    sms_report_head(i, file_size_text) + sms_size_warning_line(i, file_size_text, header_size_text)
        + sms_report_mid(i) + sms_mismatch_line(i)
}

fn push_sms_head(out: &mut Vec<char>, i: &SmsRomInfo, file_size_text: &str)
    ensures
        final(out)@ == old(out)@ + sms_report_head(*i, file_size_text@),
{
    let mut t: Vec<char> = Vec::new();
    append_str(&mut t, "Product Code: ");
    push_dec(&mut t, i.product_code as u64);
    append_str(&mut t, "\n");
    append_str(&mut t, "Region: ");
    append_str(&mut t, sms_region_text(i.region_code));
    append_str(&mut t, "\n");
    if i.version != 0 {
        append_str(&mut t, "Version: ");
        push_dec(&mut t, i.version as u64);
        append_str(&mut t, "\n");
    }
    append_str(&mut t, "ROM Size: ");
    append_str(&mut t, file_size_text);
    append_str(&mut t, "\n");
    assert(t@ =~= sms_report_head(*i, file_size_text@));
    append_chars(out, &t);
}

fn push_sms_warning(out: &mut Vec<char>, i: &SmsRomInfo, file_size_text: &str, header_size_text: &str)
    ensures
        final(out)@ == old(out)@ + sms_size_warning_line(*i, file_size_text@, header_size_text@),
{
    let mut t: Vec<char> = Vec::new();
    let declared = header_rom_size(i.rom_size_code);
    let warn = i.stored_checksum != 0 && match declared {
        Some(h) => h != i.file_size as u64,
        None => false,
    };
    if warn {
        append_str(&mut t, "Warning: Header declares ");
        append_str(&mut t, header_size_text);
        append_str(&mut t, " (checksum covers only this range), but file is ");
        append_str(&mut t, file_size_text);
        append_str(&mut t, "\n");
    }
    assert(t@ =~= sms_size_warning_line(*i, file_size_text@, header_size_text@));
    append_chars(out, &t);
}

fn push_sms_mid(out: &mut Vec<char>, i: &SmsRomInfo)
    ensures
        final(out)@ == old(out)@ + sms_report_mid(*i),
{
    let mut t: Vec<char> = Vec::new();
    append_str(&mut t, "Header Location: 0x");
    push_hex_padded(&mut t, i.header_offset as u64, 4);
    append_str(&mut t, "\n");
    if i.stored_checksum != 0 {
        push_checksum(&mut t, i.stored_checksum as u64, i.calculated_checksum as u64, 4);
        append_str(&mut t, "\n");
    }
    push_sha1(&mut t, &i.rom_sha1);
    append_str(&mut t, "\n");
    assert(t@ =~= sms_report_mid(*i));
    append_chars(out, &t);
}

fn push_sms_mismatch(out: &mut Vec<char>, i: &SmsRomInfo)
    ensures
        final(out)@ == old(out)@ + sms_mismatch_line(*i),
{
    let mut t: Vec<char> = Vec::new();
    if i.size_header_mismatch {
        let expected = expected_header_offset_for_size(i.rom_size_code);
        append_str(&mut t, "Warning: ROM size code (0x");
        push_hex_min(&mut t, i.rom_size_code as u64);
        append_str(&mut t, ") expects header at 0x");
        push_hex_padded(&mut t, expected as u64, 4);
        append_str(&mut t, ", but found at 0x");
        push_hex_padded(&mut t, i.header_offset as u64, 4);
        append_str(&mut t, "\n");
    }
    assert(t@ =~= sms_mismatch_line(*i));
    append_chars(out, &t);
}

impl SmsRomInfo {
    /// The report the inspector prints for the cartridge, given the file
    /// size and the header's declared size as text.
    pub fn describe(&self, file_size_text: &str, header_size_text: &str) -> (r: String)
        ensures
            r@ == sms_report(*self, file_size_text@, header_size_text@),
    {
        let mut t: Vec<char> = Vec::new();
        push_sms_head(&mut t, self, file_size_text);
        push_sms_warning(&mut t, self, file_size_text, header_size_text);
        push_sms_mid(&mut t, self);
        push_sms_mismatch(&mut t, self);
        assert(t@ =~= sms_report(*self, file_size_text@, header_size_text@));
        string_from_chars(&t)
    }
}

} // verus!
