//! Sega Mega Drive / Genesis and 32X cartridges, including a Sonic &
//! Knuckles lock-on image appended after the base ROM.

pub mod publisher;

use crate::bytes::{matches_at, read_u16_be, read_u32_be, spec_matches_at, spec_u16_be, spec_u32_be};
use crate::ext::{compute_sha1, spec_sha1, spec_to_uppercase, spec_utf8_lossy, string_from_chars, to_uppercase, utf8_lossy};
use crate::systems::disc::sega_ip::{dat_region_from_area_codes, spec_dat_region};
use crate::systems::helpers::{
    decode_header_text, first_non_empty, spec_first_non_empty, spec_header_text, str_views,
};
use crate::text::{append_chars, append_str, str_contains, trim_end, trim_end_chars, CharClass};
use crate::report::{checksum_text, push_checksum, push_sha1, sha1_text};
use self::publisher::spec_publisher_from_copyright;
use crate::traits::{opt_view, DatMeta, ParseError, RomHash, RomInfo, StoredChecksum};
use vstd::prelude::*;

verus! {

/// Bytes of the image up to the end of the header.
pub const HEADER_MIN_BYTES: usize = 0x200;

/// The stored checksum of the Sonic & Knuckles base cartridge.
pub const SONIC_AND_KNUCKLES_CHECKSUM: u16 = 0xDFB3;

/// `SEGA 32X` padded to 16 bytes.
pub open spec fn spec_name_32x() -> Seq<u8> {
    seq![0x53u8, 0x45, 0x47, 0x41, 0x20, 0x33, 0x32, 0x58, 0x20, 0x20, 0x20, 0x20, 0x20, 0x20, 0x20, 0x20]
}

/// `SEGA MEGA DRIVE ` (16 bytes).
pub open spec fn spec_name_mega_drive() -> Seq<u8> {
    seq![0x53u8, 0x45, 0x47, 0x41, 0x20, 0x4D, 0x45, 0x47, 0x41, 0x20, 0x44, 0x52, 0x49, 0x56, 0x45, 0x20]
}

/// `SEGA GENESIS` padded to 16 bytes.
pub open spec fn spec_name_genesis() -> Seq<u8> {
    seq![0x53u8, 0x45, 0x47, 0x41, 0x20, 0x47, 0x45, 0x4E, 0x45, 0x53, 0x49, 0x53, 0x20, 0x20, 0x20, 0x20]
}

fn name_32x() -> (r: [u8; 16])
    ensures
        r@ == spec_name_32x(),
{
    let r: [u8; 16] = [0x53, 0x45, 0x47, 0x41, 0x20, 0x33, 0x32, 0x58, 0x20, 0x20, 0x20, 0x20, 0x20, 0x20, 0x20, 0x20];
    assert(r@ =~= spec_name_32x());
    r
}

fn name_mega_drive() -> (r: [u8; 16])
    ensures
        r@ == spec_name_mega_drive(),
{
    let r: [u8; 16] = [0x53, 0x45, 0x47, 0x41, 0x20, 0x4D, 0x45, 0x47, 0x41, 0x20, 0x44, 0x52, 0x49, 0x56, 0x45, 0x20];
    assert(r@ =~= spec_name_mega_drive());
    r
}

fn name_genesis() -> (r: [u8; 16])
    ensures
        r@ == spec_name_genesis(),
{
    let r: [u8; 16] = [0x53, 0x45, 0x47, 0x41, 0x20, 0x47, 0x45, 0x4E, 0x45, 0x53, 0x49, 0x53, 0x20, 0x20, 0x20, 0x20];
    assert(r@ =~= spec_name_genesis());
    r
}

/// Which console the header names.
#[derive(Debug, Clone, Copy, PartialEq, Eq, Structural)]
pub enum SegaConsole {
    Genesis,
    X32,
}

/// Why a buffer cannot be read as a Sega cartridge.
#[derive(Debug, Clone, Copy, PartialEq, Eq, Structural)]
pub enum SegaParseError {
    /// The buffer is too small to hold the header.
    UnexpectedEof,
}

/// A parsed Sega cartridge header, with any lock-on image.
pub struct SegaRomInfo {
    pub domestic_title: String,
    pub overseas_title: String,
    pub copyright: String,
    pub device_support: String,
    pub regions: String,
    pub stored_checksum: u16,
    pub calced_checksum: u16,
    pub lock_on: Option<Box<SegaRomInfo>>,
    pub console: SegaConsole,
    pub rom_sha1: [u8; 20],
}

/// The console name at 0x100 is the 32X one.
pub open spec fn spec_is_32x_rom(b: Seq<u8>) -> bool {
    b.len() >= 0x200 && spec_matches_at(b, 0x100, spec_name_32x())
}

/// The console name at 0x100 is a Mega Drive or Genesis one.
pub open spec fn spec_is_genesis_rom(b: Seq<u8>) -> bool {
    b.len() >= 0x200 && (spec_matches_at(b, 0x100, spec_name_mega_drive()) || spec_matches_at(
        b,
        0x100,
        spec_name_genesis(),
    ))
}

pub fn is_32x_rom(buffer: &[u8]) -> (r: bool)
    ensures
        r == spec_is_32x_rom(buffer@),
{
    if buffer.len() < HEADER_MIN_BYTES {
        return false;
    }
    let n = name_32x();
    matches_at(buffer, 0x100, n.as_slice())
}

pub fn is_genesis_rom(buffer: &[u8]) -> (r: bool)
    ensures
        r == spec_is_genesis_rom(buffer@),
{
    if buffer.len() < HEADER_MIN_BYTES {
        return false;
    }
    let md = name_mega_drive();
    let gen = name_genesis();
    matches_at(buffer, 0x100, md.as_slice()) || matches_at(buffer, 0x100, gen.as_slice())
}

/// The ROM size the header declares: its end address (0x1A4) plus one.
pub open spec fn sega_rom_size(b: Seq<u8>) -> int {
    spec_u32_be(b, 0x1A4) + 1
}

/// The image without bytes past the declared ROM size.
pub open spec fn sega_rom(b: Seq<u8>) -> Seq<u8> {
    if sega_rom_size(b) < b.len() {
        b.take(sega_rom_size(b))
    } else {
        b
    }
}

/// A lock-on image follows: the Sonic & Knuckles checksum and bytes past
/// the declared size.
pub open spec fn sega_has_lock_on(b: Seq<u8>) -> bool {
    spec_u16_be(b, 0x18E) == 0xDFB3 && sega_rom_size(b) < b.len()
}

/// Images on which parsing is defined: not when the end address is
/// 0xFFFFFFFF (the size overflows), nor when a declared size smaller than
/// the file cuts the header short, here or in a lock-on image.
pub open spec fn sega_parse_defined(b: Seq<u8>) -> bool
    decreases b.len(),
{
    b.len() < 0x200 || (spec_u32_be(b, 0x1A4) != 0xFFFF_FFFF && (sega_rom_size(b) >= b.len()
        || sega_rom_size(b) >= 0x1F4) && (sega_has_lock_on(b) ==> sega_parse_defined(
        b.skip(sega_rom_size(b)),
    )))
}

/// Sum of the big-endian 16-bit words `0x100..n` of `b`, modulo 65536.
pub open spec fn sega_word_sum(b: Seq<u8>, n: int) -> u16
    decreases n,
{
    if n <= 0x100 {
        0
    } else {
        vstd::wrapping::u16_specs::wrapping_add(sega_word_sum(b, n - 1), spec_u16_be(b, 2 * (n - 1)))
    }
}

/// The cartridge checksum: the 16-bit words from 0x200 to the end of the ROM.
pub open spec fn spec_sega_checksum(r: Seq<u8>) -> u16 {
    sega_word_sum(r, (r.len() / 2) as int)
}

/// The region field: lossy text, NULs trimmed from the end, upper-cased.
pub open spec fn sega_regions(r: Seq<u8>) -> Seq<char> {
    spec_to_uppercase(trim_end(spec_utf8_lossy(r.subrange(0x1F0, 0x1F4)), CharClass::Nul))
}

/// The console: 32X when only the 32X name matches, else Genesis.
pub open spec fn sega_console(r: Seq<u8>) -> SegaConsole {
    if !spec_is_genesis_rom(r) && spec_is_32x_rom(r) {
        SegaConsole::X32
    } else {
        SegaConsole::Genesis
    }
}

/// What a successful parse reads from the buffer, lock-on image included.
pub open spec fn sega_info_matches(b: Seq<u8>, info: SegaRomInfo) -> bool
    decreases b.len(),
{
    let r = sega_rom(b);
    &&& info.copyright@ == spec_header_text(r.subrange(0x110, 0x120))
    &&& info.domestic_title@ == spec_header_text(r.subrange(0x120, 0x150))
    &&& info.overseas_title@ == spec_header_text(r.subrange(0x150, 0x180))
    &&& info.device_support@ == spec_header_text(r.subrange(0x190, 0x1A0))
    &&& info.regions@ == sega_regions(r)
    &&& info.stored_checksum == spec_u16_be(b, 0x18E)
    &&& info.calced_checksum == spec_sega_checksum(r)
    &&& info.console == sega_console(r)
    &&& info.rom_sha1@ == spec_sha1(b)
    &&& if sega_has_lock_on(b) {
        let rest = b.skip(sega_rom_size(b));
        match info.lock_on {
            Some(l) => rest.len() >= 0x200 && sega_info_matches(rest, *l),
            None => rest.len() < 0x200,
        }
    } else {
        info.lock_on is None
    }
}

fn word_sum(r: &[u8]) -> (s: u16)
    ensures
        s == spec_sega_checksum(r@),
{
    let n = r.len() / 2;
    let mut acc: u16 = 0;
    let mut k: usize = 0x100;
    if n <= 0x100 {
        return 0;
    }
    while k < n
        invariant
            n == r.len() / 2,
            0x100 <= k <= n,
            acc == sega_word_sum(r@, k as int),
        decreases n - k,
    {
        let w = read_u16_be(r, 2 * k);
        acc = acc.wrapping_add(w);
        k += 1;
    }
    acc
}

fn region_text(r: &[u8]) -> (s: String)
    requires
        r.len() >= 0x1F4,
    ensures
        s@ == sega_regions(r@),
{
    let field = &r[0x1F0..0x1F4];
    assert(field@ =~= r@.subrange(0x1F0, 0x1F4));
    let chars = utf8_lossy(field);
    let trimmed = trim_end_chars(&chars, CharClass::Nul);
    let upper = to_uppercase(&trimmed);
    string_from_chars(&upper)
}

fn header_text(r: &[u8], lo: usize, hi: usize) -> (s: String)
    requires
        lo <= hi <= r.len(),
    ensures
        s@ == spec_header_text(r@.subrange(lo as int, hi as int)),
{
    let field = &r[lo..hi];
    assert(field@ =~= r@.subrange(lo as int, hi as int));
    decode_header_text(field)
}

/// Parse the header of a Sega cartridge, checksum the ROM it declares and
/// parse a lock-on image appended to a Sonic & Knuckles base cartridge.
pub fn parse_sega_rom(raw_buffer: &[u8]) -> (r: Result<SegaRomInfo, SegaParseError>)
    requires
        sega_parse_defined(raw_buffer@),
    ensures
        match r {
            Ok(info) => raw_buffer@.len() >= 0x200 && sega_info_matches(raw_buffer@, info),
            Err(e) => raw_buffer@.len() < 0x200 && e == SegaParseError::UnexpectedEof,
        },
    decreases raw_buffer@.len(),
{
    let len = raw_buffer.len();
    if len < HEADER_MIN_BYTES {
        return Err(SegaParseError::UnexpectedEof);
    }
    let rom_sha1 = compute_sha1(raw_buffer);
    let end_addr = read_u32_be(raw_buffer, 0x1A4);
    let rom_size = (end_addr + 1) as usize;
    let stored_checksum = read_u16_be(raw_buffer, 0x18E);
    let is_sonic_and_knuckles = stored_checksum == SONIC_AND_KNUCKLES_CHECKSUM;
    let buffer: &[u8] = if rom_size < len {
        &raw_buffer[0..rom_size]
    } else {
        raw_buffer
    };
    assert(buffer@ =~= sega_rom(raw_buffer@));
    let lock_on: Option<Box<SegaRomInfo>> = if is_sonic_and_knuckles && rom_size < len {
        let rest = &raw_buffer[rom_size..len];
        assert(rest@ =~= raw_buffer@.skip(rom_size as int));
        match parse_sega_rom(rest) {
            Ok(rom) => Some(Box::new(rom)),
            Err(_) => None,
        }
    } else {
        None
    };
    let console = if !is_genesis_rom(buffer) && is_32x_rom(buffer) {
        SegaConsole::X32
    } else {
        SegaConsole::Genesis
    };
    Ok(
        SegaRomInfo {
            copyright: header_text(buffer, 0x110, 0x120),
            domestic_title: header_text(buffer, 0x120, 0x150),
            overseas_title: header_text(buffer, 0x150, 0x180),
            device_support: header_text(buffer, 0x190, 0x1A0),
            regions: region_text(buffer),
            stored_checksum,
            calced_checksum: word_sum(buffer),
            lock_on,
            console,
            rom_sha1,
        },
    )
}

/// What a Genesis/32X parse fails with, when it fails.
pub open spec fn sega_parse_error(b: Seq<u8>) -> Option<ParseError> {
    if !spec_is_genesis_rom(b) && !spec_is_32x_rom(b) {
        Some(ParseError::MagicNotFound)
    } else {
        None
    }
}

/// Detection as a Mega Drive or 32X cartridge is defined: an image without
/// either magic is turned away before its header is read.
pub open spec fn sega_detect_defined(b: Seq<u8>) -> bool {
    (spec_is_genesis_rom(b) || spec_is_32x_rom(b)) ==> sega_parse_defined(b)
}

/// Whether detection as a Mega Drive or 32X cartridge is defined.
pub fn sega_detect_is_defined(buffer: &[u8]) -> (r: bool)
    ensures
        r == sega_detect_defined(buffer@),
{
    !(is_genesis_rom(buffer) || is_32x_rom(buffer)) || sega_parse_is_defined(buffer)
}

impl SegaRomInfo {
    /// Parse a Mega Drive / Genesis or 32X cartridge.
    pub fn try_from(buffer: &[u8]) -> (r: Result<SegaRomInfo, ParseError>)
        requires
            sega_detect_defined(buffer@),
        ensures
            match r {
                Ok(info) => sega_parse_error(buffer@) is None && sega_info_matches(buffer@, info),
                Err(e) => sega_parse_error(buffer@) == Some(e),
            },
    {
        if !is_genesis_rom(buffer) && !is_32x_rom(buffer) {
            return Err(ParseError::MagicNotFound);
        }
        match parse_sega_rom(buffer) {
            Ok(info) => Ok(info),
            Err(_) => Err(ParseError::InvalidHeader),
        }
    }
}

/// The J/U/E flags the region field's letters and hexadecimal masks give.
pub open spec fn sega_region_flags(regions: Seq<char>) -> (bool, bool, bool) {
    (
        regions.contains('J') || regions.contains('1') || regions.contains('5') || regions.contains(
            'F',
        ),
        regions.contains('U') || regions.contains('4') || regions.contains('5') || regions.contains(
            'F',
        ),
        regions.contains('E') || regions.contains('8') || regions.contains('F'),
    )
}

impl RomInfo for SegaRomInfo {
    fn console(&self) -> (r: &'static str)
        ensures
            r@ == match self.console {
                SegaConsole::Genesis => "Sega Genesis/Mega Drive"@,
                SegaConsole::X32 => "Sega 32X"@,
            },
    {
        match self.console {
            SegaConsole::Genesis => "Sega Genesis/Mega Drive",
            SegaConsole::X32 => "Sega 32X",
        }
    }

    fn dat_meta(&self) -> (r: DatMeta)
        ensures
            opt_view(r.title) == spec_first_non_empty(
                seq![self.overseas_title@, self.domestic_title@],
            ),
            opt_view(r.region) == spec_dat_region(
                sega_region_flags(self.regions@).0,
                sega_region_flags(self.regions@).1,
                sega_region_flags(self.regions@).2,
            ),
            r.version is None,
            r.date is None,
            r.manufacturer is None,
            r.serial is None,
            r.machine_id is None,
    {
        let rg = self.regions.as_str();
        let has_j = str_contains(rg, 'J') || str_contains(rg, '1') || str_contains(rg, '5')
            || str_contains(rg, 'F');
        let has_u = str_contains(rg, 'U') || str_contains(rg, '4') || str_contains(rg, '5')
            || str_contains(rg, 'F');
        let has_e = str_contains(rg, 'E') || str_contains(rg, '8') || str_contains(rg, 'F');
        let mut normalized: Vec<char> = Vec::new();
        if has_j {
            normalized.push('J');
        }
        if has_u {
            normalized.push('U');
        }
        if has_e {
            normalized.push('E');
        }
        let ghost nv = normalized@;
        assert(nv.contains('J') == has_j) by {
            if has_j {
                assert(nv[0] == 'J');
            }
        }
        assert(nv.contains('U') == has_u) by {
            if has_u {
                assert(nv[if has_j { 1int } else { 0int }] == 'U');
            }
        }
        assert(nv.contains('E') == has_e) by {
            if has_e {
                assert(nv[nv.len() - 1] == 'E');
            }
        }
        let norm = string_from_chars(&normalized);
        let titles: [&str; 2] = [self.overseas_title.as_str(), self.domestic_title.as_str()];
        assert(str_views(titles@) =~= seq![self.overseas_title@, self.domestic_title@]);
        DatMeta {
            title: first_non_empty(titles.as_slice()),
            region: dat_region_from_area_codes(norm.as_str()),
            version: None,
            date: None,
            manufacturer: None,
            serial: None,
            machine_id: None,
        }
    }
}

impl StoredChecksum<u16> for SegaRomInfo {
    fn stored_checksum(&self) -> (r: u16)
        ensures
            r == self.stored_checksum,
    {
        self.stored_checksum
    }

    fn calculated_checksum(&self) -> (r: u16)
        ensures
            r == self.calced_checksum,
    {
        self.calced_checksum
    }

    fn checksum_matches(&self) -> (r: bool)
        ensures
            r == (self.stored_checksum == self.calced_checksum),
    {
        self.stored_checksum == self.calced_checksum
    }
}

impl RomHash for SegaRomInfo {
    fn sha1(&self) -> (r: [u8; 20])
        ensures
            r@ == self.rom_sha1@,
    {
        self.rom_sha1
    }
}

/// Whether parsing the buffer as a Mega Drive ROM is defined.
pub fn sega_parse_is_defined(buffer: &[u8]) -> (r: bool)
    ensures
        r == sega_parse_defined(buffer@),
{
    let mut off: usize = 0;
    assert(buffer@.skip(0) =~= buffer@);
    while off < buffer.len()
        invariant
            off <= buffer.len(),
            sega_parse_defined(buffer@) == sega_parse_defined(buffer@.skip(off as int)),
        decreases buffer.len() - off,
    {
        let cur = &buffer[off..buffer.len()];
        assert(cur@ =~= buffer@.skip(off as int));
        if cur.len() < 0x200 {
            return true;
        }
        let end = read_u32_be(cur, 0x1A4);
        if end == 0xFFFF_FFFF {
            return false;
        }
        let size: u64 = end as u64 + 1;
        if !(size >= cur.len() as u64 || size >= 0x1F4) {
            return false;
        }
        let lock = read_u16_be(cur, 0x18E) == 0xDFB3 && size < cur.len() as u64;
        if !lock {
            return true;
        }
        assert(cur@.skip(size as int) =~= buffer@.skip(off + size));
        off = off + size as usize;
    }
    assert(buffer@.skip(off as int).len() == 0);
    true
}

// ---------------------------------------------------------------------------
// Report
// ---------------------------------------------------------------------------

/// The regions a region field names, as the report writes them.
pub open spec fn sega_region_text(r: Seq<char>) -> Seq<char> {
    let j = r.contains('J');
    let u = r.contains('U');
    let e = r.contains('E');
    if j && u && e {
        "Japan, USA, Europe"@
    } else if j && u {
        "Japan, USA"@
    } else if j && e {
        "Japan, Europe"@
    } else if u && e {
        "USA, Europe"@
    } else if j {
        "Japan"@
    } else if u {
        "USA"@
    } else if e {
        "Europe"@
    } else if r.contains('1') {
        "NTSC-J"@
    } else if r.contains('4') {
        "NTSC-U"@
    } else if r.contains('5') {
        "NTSC"@
    } else if r.contains('8') {
        "PAL"@
    } else if r.contains('F') {
        "All Consoles"@
    } else {
        "Unknown"@
    }
}

fn sega_region_str(r: &str) -> (t: &'static str)
    ensures
        t@ == sega_region_text(r@),
{
    let j = str_contains(r, 'J');
    let u = str_contains(r, 'U');
    let e = str_contains(r, 'E');
    if j && u && e {
        "Japan, USA, Europe"
    } else if j && u {
        "Japan, USA"
    } else if j && e {
        "Japan, Europe"
    } else if u && e {
        "USA, Europe"
    } else if j {
        "Japan"
    } else if u {
        "USA"
    } else if e {
        "Europe"
    } else if str_contains(r, '1') {
        "NTSC-J"
    } else if str_contains(r, '4') {
        "NTSC-U"
    } else if str_contains(r, '5') {
        "NTSC"
    } else if str_contains(r, '8') {
        "PAL"
    } else if str_contains(r, 'F') {
        "All Consoles"
    } else {
        "Unknown"
    }
}

/// The lines of one image, without a locked-on one.
pub open spec fn sega_own_lines(i: SegaRomInfo) -> Seq<char> {
    "Domestic Name: "@ + i.domestic_title@ + "\n"@ + "Overseas Name: "@ + i.overseas_title@ + "\n"@
        + "Region: "@ + sega_region_text(i.regions@) + "\n"@ + match spec_publisher_from_copyright(
        i.copyright@,
    ) {
        Some(name) => "Copyright: "@ + i.copyright@ + " ("@ + name + ")\n"@,
        None => "Copyright: "@ + i.copyright@ + "\n"@,
    } + "Device Support: "@ + i.device_support@ + "\n"@ + checksum_text(
        i.stored_checksum as nat,
        i.calced_checksum as nat,
        4,
    ) + "\n"@ + sha1_text(i.rom_sha1@) + "\n"@
}

/// The report of a Mega Drive image, followed by that of a locked-on image.
pub open spec fn sega_report(i: SegaRomInfo) -> Seq<char>
    decreases i,
{
    sega_own_lines(i) + match i.lock_on {
        Some(g) => "+ Lock-On game\n"@ + sega_report(*g),
        None => Seq::empty(),
    }
}

fn push_sega_own_lines(out: &mut Vec<char>, i: &SegaRomInfo)
    ensures
        final(out)@ == old(out)@ + sega_own_lines(*i),
{
    let mut t: Vec<char> = Vec::new();
    append_str(&mut t, "Domestic Name: ");
    append_str(&mut t, i.domestic_title.as_str());
    append_str(&mut t, "\n");
    append_str(&mut t, "Overseas Name: ");
    append_str(&mut t, i.overseas_title.as_str());
    append_str(&mut t, "\n");
    append_str(&mut t, "Region: ");
    append_str(&mut t, sega_region_str(i.regions.as_str()));
    append_str(&mut t, "\n");
    match publisher::publisher_from_copyright(i.copyright.as_str()) {
        Some(name) => {
            append_str(&mut t, "Copyright: ");
            append_str(&mut t, i.copyright.as_str());
            append_str(&mut t, " (");
            append_str(&mut t, name);
            append_str(&mut t, ")\n");
        },
        None => {
            append_str(&mut t, "Copyright: ");
            append_str(&mut t, i.copyright.as_str());
            append_str(&mut t, "\n");
        },
    }
    append_str(&mut t, "Device Support: ");
    append_str(&mut t, i.device_support.as_str());
    append_str(&mut t, "\n");
    push_checksum(&mut t, i.stored_checksum as u64, i.calced_checksum as u64, 4);
    append_str(&mut t, "\n");
    push_sha1(&mut t, &i.rom_sha1);
    append_str(&mut t, "\n");
    assert(t@ =~= sega_own_lines(*i));
    append_chars(out, &t);
}

fn push_sega_report(out: &mut Vec<char>, i: &SegaRomInfo)
    ensures
        final(out)@ == old(out)@ + sega_report(*i),
    decreases i,
{
    let mut t: Vec<char> = Vec::new();
    push_sega_own_lines(&mut t, i);
    match &i.lock_on {
        Some(g) => {
            append_str(&mut t, "+ Lock-On game\n");
            let inner: &SegaRomInfo = g;
            push_sega_report(&mut t, inner);
        },
        None => {},
    }
    assert(t@ =~= sega_report(*i));
    append_chars(out, &t);
}

impl SegaRomInfo {
    /// The report the inspector prints for the image and any locked-on one.
    pub fn describe(&self) -> (r: String)
        ensures
            r@ == sega_report(*self),
    {
        let mut t: Vec<char> = Vec::new();
        push_sega_report(&mut t, self);
        assert(t@ =~= sega_report(*self));
        string_from_chars(&t)
    }
}

proof fn lemma_word_sum_ignores_low_bytes(a: Seq<u8>, b: Seq<u8>, n: int)
    requires
        a.len() == b.len(),
        2 * n <= a.len(),
        forall|i: int| 0x200 <= i < a.len() ==> a[i] == b[i],
    ensures
        sega_word_sum(a, n) == sega_word_sum(b, n),
    decreases n,
{
    if n > 0x100 {
        lemma_word_sum_ignores_low_bytes(a, b, n - 1);
        assert(a[2 * (n - 1)] == b[2 * (n - 1)]);
        assert(a[2 * (n - 1) + 1] == b[2 * (n - 1) + 1]);
    }
}

/// The cartridge checksum covers only the ROM from 0x200 on: two ROM
/// images of one length that agree from byte 0x200 to the end have the same
/// checksum, whatever their vectors and header hold.
pub proof fn law_sega_checksum_ignores_vectors_and_header(a: Seq<u8>, b: Seq<u8>)
    requires
        a.len() == b.len(),
        forall|i: int| 0x200 <= i < a.len() ==> a[i] == b[i],
    ensures
        spec_sega_checksum(a) == spec_sega_checksum(b),
{
    lemma_word_sum_ignores_low_bytes(a, b, (a.len() / 2) as int);
}

proof fn lemma_word_sum_zero_tail(a: Seq<u8>, n: int)
    requires
        2 * n <= a.len(),
        forall|i: int| 0x200 <= i < a.len() ==> a[i] == 0,
    ensures
        sega_word_sum(a, n) == 0,
    decreases n,
{
    if n > 0x100 {
        lemma_word_sum_zero_tail(a, n - 1);
        assert(a[2 * (n - 1)] == 0 && a[2 * (n - 1) + 1] == 0);
        assert(spec_u16_be(a, 2 * (n - 1)) == 0);
    }
}

/// A ROM whose bytes from 0x200 on are all zero has checksum 0, whatever
/// the first 0x200 bytes hold.
pub proof fn law_sega_checksum_of_blank_body(a: Seq<u8>)
    requires
        forall|i: int| 0x200 <= i < a.len() ==> a[i] == 0,
    ensures
        spec_sega_checksum(a) == 0,
{
    lemma_word_sum_zero_tail(a, (a.len() / 2) as int);
}

/// Two parsed cartridges whose ROMs (after the declared-size cut) have one
/// length and agree from 0x200 on report the same calculated checksum.
pub proof fn law_sega_parsed_checksum_ignores_header(
    a: Seq<u8>,
    ia: SegaRomInfo,
    b: Seq<u8>,
    ib: SegaRomInfo,
)
    requires
        sega_info_matches(a, ia),
        sega_info_matches(b, ib),
        sega_rom(a).len() == sega_rom(b).len(),
        forall|i: int| 0x200 <= i < sega_rom(a).len() ==> sega_rom(a)[i] == sega_rom(b)[i],
    ensures
        ia.calced_checksum == ib.calced_checksum,
{
    law_sega_checksum_ignores_vectors_and_header(sega_rom(a), sega_rom(b));
}

proof fn lemma_word_sum_single(a: Seq<u8>, k: int, n: int)
    requires
        0x100 <= k,
        2 * k + 1 < a.len(),
        2 * n <= a.len(),
        forall|i: int| 0x200 <= i < a.len() && i != 2 * k && i != 2 * k + 1 ==> a[i] == 0,
    ensures
        sega_word_sum(a, n) == (if n > k { a[2 * k] as int * 256 + a[2 * k + 1] as int } else { 0 }),
    decreases n,
{
    if n > 0x100 {
        lemma_word_sum_single(a, k, n - 1);
        if n - 1 != k {
            assert(a[2 * (n - 1)] == 0 && a[2 * (n - 1) + 1] == 0);
        }
    }
}

/// The checksum reads the ROM body as big-endian 16-bit words: a body from
/// 0x200 on that is zero but for the one word at `2k` sums to that word's
/// big-endian value.
pub proof fn law_sega_checksum_reads_big_endian_words(a: Seq<u8>, k: int)
    requires
        0x100 <= k,
        2 * k + 1 < a.len(),
        forall|i: int| 0x200 <= i < a.len() && i != 2 * k && i != 2 * k + 1 ==> a[i] == 0,
    ensures
        spec_sega_checksum(a) == a[2 * k] as int * 256 + a[2 * k + 1] as int,
{
    lemma_word_sum_single(a, k, (a.len() / 2) as int);
}

} // verus!
