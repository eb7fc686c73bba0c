//! Nintendo 64 cartridge images in any of the three dump byte orders.

use crate::bytes::{read_u32_be, spec_u32_be};
use crate::ext::{compute_sha1, spec_sha1, spec_utf8_lossy, string_from_chars, utf8_lossy};
use crate::text::chars_of;
use crate::systems::helpers::{
    dat_revision, decode_header_text, non_empty, spec_dat_revision, spec_header_text, spec_non_empty,
};
use crate::traits::{opt_view, DatMeta, ParseError, RomHash, RomInfo, StoredChecksum};
use crate::report::{checksum_pair_text, push_checksum_pair, push_dec, push_sha1, sha1_text};
use crate::text::{append_str, spec_decimal};
use vstd::prelude::*;

verus! {

/// The byte order of a dump.
#[derive(Debug, Clone, Copy, PartialEq, Eq, Structural)]
pub enum N64Format {
    /// `.z64`: the cartridge's own big-endian order.
    BigEndian,
    /// `.n64`: each 32-bit word reversed.
    LittleEndian,
    /// `.v64`: each 16-bit half-word swapped.
    ByteSwapped,
}

/// Why a buffer is not an N64 image.
#[derive(Debug, Clone, Copy, PartialEq, Eq, Structural)]
pub enum N64ParseError {
    BufferTooSmall { minimum: usize },
    UnknownFormat,
}

/// A parsed N64 cartridge header with its boot-code checksums.
pub struct N64RomInfo {
    pub rom_format: N64Format,
    pub stored_title: String,
    pub stored_format: String,
    pub media: char,
    pub country_code: u8,
    pub crc1: u32,
    pub crc2: u32,
    pub calculated_crc1: u32,
    pub calculated_crc2: u32,
    pub revision: u8,
    pub rom_sha1: [u8; 20],
}

// ---------------------------------------------------------------------------
// Byte order
// ---------------------------------------------------------------------------

/// The format named by the first four bytes, read big-endian.
pub open spec fn spec_detect_n64_format(b: Seq<u8>) -> Result<N64Format, N64ParseError> {
    if b.len() < 4 {
        Err(N64ParseError::BufferTooSmall { minimum: 4 })
    } else {
        let m = spec_u32_be(b, 0);
        if m == 0x80371240 {
            Ok(N64Format::BigEndian)
        } else if m == 0x40123780 {
            Ok(N64Format::LittleEndian)
        } else if m == 0x37804012 {
            Ok(N64Format::ByteSwapped)
        } else {
            Err(N64ParseError::UnknownFormat)
        }
    }
}

pub fn detect_n64_format(buffer: &[u8]) -> (r: Result<N64Format, N64ParseError>)
    ensures
        r == spec_detect_n64_format(buffer@),
{
    if buffer.len() < 4 {
        return Err(N64ParseError::BufferTooSmall { minimum: 4 });
    }
    let m = read_u32_be(buffer, 0);
    if m == 0x80371240 {
        Ok(N64Format::BigEndian)
    } else if m == 0x40123780 {
        Ok(N64Format::LittleEndian)
    } else if m == 0x37804012 {
        Ok(N64Format::ByteSwapped)
    } else {
        Err(N64ParseError::UnknownFormat)
    }
}

/// Whether the buffer starts with one of the three N64 magics.
pub fn is_n64_rom(buffer: &[u8]) -> (r: bool)
    ensures
        r == spec_detect_n64_format(buffer@) is Ok,
{
    match detect_n64_format(buffer) {
        Ok(_) => true,
        Err(_) => false,
    }
}

/// The buffer in big-endian order: word-reversed or half-word-swapped in
/// whole groups, a trailing partial group dropped.
pub open spec fn spec_n64_big_endian(b: Seq<u8>, f: N64Format) -> Seq<u8> {
    match f {
        N64Format::BigEndian => b,
        N64Format::LittleEndian => Seq::new(
            (b.len() - b.len() % 4) as nat,
            |i: int| b[i - i % 4 + (3 - i % 4)],
        ),
        N64Format::ByteSwapped => Seq::new(
            (b.len() - b.len() % 2) as nat,
            |i: int| b[i - i % 2 + (1 - i % 2)],
        ),
    }
}

#[verifier::spinoff_prover]
#[verifier::rlimit(40)]
fn reorder_groups(buffer: &[u8], group: usize) -> (r: Vec<u8>)
    requires
        group == 2 || group == 4,
    ensures
        r@.len() == buffer@.len() - buffer@.len() % (group as nat),
        forall|j: int| 0 <= j < r@.len() ==> #[trigger] r@[j] == buffer@[j - j % (group as int) + (
        group - 1 - j % (group as int))],
{
    let n = buffer.len() - buffer.len() % group;
    let mut out: Vec<u8> = Vec::new();
    let mut i: usize = 0;
    while i < n
        invariant
            group == 2 || group == 4,
            n == buffer.len() - buffer.len() % group,
            i <= n,
            i % group == 0,
            out@.len() == i,
            forall|j: int| 0 <= j < i ==> #[trigger] out@[j] == buffer@[j - j % (group as int) + (
            group - 1 - j % (group as int))],
        decreases n - i,
    {
        proof {
            if group == 2 {
                assert(i + 2 <= n);
            } else {
                assert(i + 4 <= n);
            }
        }
        let mut k: usize = 0;
        while k < group
            invariant
                group == 2 || group == 4,
                n == buffer.len() - buffer.len() % group,
                i + group <= n,
                i % group == 0,
                k <= group,
                out@.len() == i + k,
                forall|j: int| 0 <= j < i + k ==> #[trigger] out@[j] == buffer@[j - j % (group as int)
                    + (group - 1 - j % (group as int))],
            decreases group - k,
        {
            out.push(buffer[i + (group - 1 - k)]);
            proof {
                let j = i + k;
                assert(j % (group as int) == k as int);
                assert(j - j % (group as int) == i as int);
            }
            k += 1;
        }
        i += group;
    }
    out
}

pub fn correct_n64_byte_order(buffer: &[u8], format: N64Format) -> (r: Vec<u8>)
    ensures
        r@ == spec_n64_big_endian(buffer@, format),
{
    match format {
        N64Format::BigEndian => {
            let r = crate::bytes::copy_range(buffer, 0, buffer.len());
            assert(r@ =~= buffer@);
            r
        },
        N64Format::LittleEndian => {
            let r = reorder_groups(buffer, 4);
            assert(r@ =~= spec_n64_big_endian(buffer@, format));
            r
        },
        N64Format::ByteSwapped => {
            let r = reorder_groups(buffer, 2);
            assert(r@ =~= spec_n64_big_endian(buffer@, format));
            r
        },
    }
}

// ---------------------------------------------------------------------------
// Title
// ---------------------------------------------------------------------------

/// The header title, decoded as cartridge header text.
pub open spec fn spec_n64_title(bytes: Seq<u8>) -> Seq<char> {
    spec_header_text(bytes)
}

pub fn decode_n64_title(buffer: &[u8]) -> (r: String)
    ensures
        r@ == spec_n64_title(buffer@),
{
    decode_header_text(buffer)
}

// ---------------------------------------------------------------------------
// Boot-code checksums
// ---------------------------------------------------------------------------

/// `d` rotated left by `k` bits.
pub open spec fn rotl32(d: u32, k: u32) -> u32 {
    if k == 0 {
        d
    } else {
        (d << k) | (d >> ((32 - k) as u32))
    }
}

fn rotate_left32(d: u32, k: u32) -> (r: u32)
    requires
        k < 32,
    ensures
        r == rotl32(d, k),
{
    if k == 0 {
        d
    } else {
        (d << k) | (d >> (32 - k))
    }
}

/// The seed of the checksum for the boot-code selector byte at 0x29B.
pub open spec fn n64_seed(cic: u8) -> u32 {
    if cic == 0x1C {
        0xDF26F436
    } else if cic == 0x8D {
        0xA3886759
    } else if cic == 0x9E {
        0x1FEA617A
    } else {
        0xF8CA4DDC
    }
}

/// The checksum state: six 32-bit accumulators.
pub type N64CrcState = (u32, u32, u32, u32, u32, u32);

/// The big-endian word `k` of the checksummed data (from offset 0x1000).
pub open spec fn n64_word(b: Seq<u8>, k: int) -> u32 {
    spec_u32_be(b, 0x1000 + 4 * k)
}

/// Number of whole words checksummed: at most 1 MiB from offset 0x1000.
pub open spec fn n64_word_count(b: Seq<u8>) -> int {
    let avail = b.len() - 0x1000;
    let n = if avail < 0x100000 {
        avail
    } else {
        0x100000
    };
    n / 4
}

/// One checksum step on word `k`.
pub open spec fn n64_step(b: Seq<u8>, cic: u8, t: N64CrcState, k: int) -> N64CrcState {
    let d = n64_word(b, k);
    let r = rotl32(d, d % 32);
    let (t1, t2, t3, t4, t5, t6) = t;
    let weird = 0x750 + (4 * k) % 256;
    (
        if cic == 0x1C {
            vstd::wrapping::u32_specs::wrapping_add(t1, spec_u32_be(b, weird) ^ d)
        } else {
            vstd::wrapping::u32_specs::wrapping_add(
                t1,
                vstd::wrapping::u32_specs::wrapping_add(t5, r) ^ d,
            )
        },
        t2 ^ if t2 > d {
            r
        } else {
            vstd::wrapping::u32_specs::wrapping_add(t6, d) ^ d
        },
        t3 ^ d,
        vstd::wrapping::u32_specs::wrapping_add(
            t4,
            if t6 + d > u32::MAX {
                1u32
            } else {
                0u32
            },
        ),
        vstd::wrapping::u32_specs::wrapping_add(t5, r),
        vstd::wrapping::u32_specs::wrapping_add(t6, d),
    )
}

/// The state after the first `n` words.
pub open spec fn n64_state(b: Seq<u8>, cic: u8, n: nat) -> N64CrcState
    decreases n,
{
    if n == 0 {
        let s = n64_seed(cic);
        (s, s, s, s, s, s)
    } else {
        n64_step(b, cic, n64_state(b, cic, (n - 1) as nat), n - 1)
    }
}

/// The two checksums from the final state, combined as the boot code does.
pub open spec fn n64_finish(cic: u8, t: N64CrcState) -> (u32, u32) {
    let (t1, t2, t3, t4, t5, t6) = t;
    if cic == 0x9E {
        (
            vstd::wrapping::u32_specs::wrapping_add(
                vstd::wrapping::u32_specs::wrapping_mul(t6, t4),
                t3,
            ),
            vstd::wrapping::u32_specs::wrapping_add(
                vstd::wrapping::u32_specs::wrapping_mul(t5, t2),
                t1,
            ),
        )
    } else if cic == 0x8D {
        (
            vstd::wrapping::u32_specs::wrapping_add(t6 ^ t4, t3),
            vstd::wrapping::u32_specs::wrapping_add(t5 ^ t2, t1),
        )
    } else {
        (t6 ^ t4 ^ t3, t5 ^ t2 ^ t1)
    }
}

/// The boot-code checksums of a big-endian image of at least 4 KiB.
pub open spec fn spec_n64_crc(b: Seq<u8>) -> (u32, u32) {
    n64_finish(b[0x29B], n64_state(b, b[0x29B], n64_word_count(b) as nat))
}

/// Compute the two boot-code checksums (CRC1, CRC2) of a big-endian image.
pub fn calculate_n64_crc(buffer: &[u8]) -> (r: Result<(u32, u32), N64ParseError>)
    ensures
        match r {
            Ok(c) => buffer@.len() >= 0x1000 && c == spec_n64_crc(buffer@),
            Err(e) => buffer@.len() < 0x1000 && e == (N64ParseError::BufferTooSmall { minimum: 0x1000 }),
        },
{
    if buffer.len() < 0x1000 {
        return Err(N64ParseError::BufferTooSmall { minimum: 0x1000 });
    }
    let cic = buffer[0x29B];
    let seed: u32 = if cic == 0x1C {
        0xDF26F436
    } else if cic == 0x8D {
        0xA3886759
    } else if cic == 0x9E {
        0x1FEA617A
    } else {
        0xF8CA4DDC
    };
    let avail = buffer.len() - 0x1000;
    let span = if avail < 0x100000 {
        avail
    } else {
        0x100000
    };
    let words = span / 4;
    let ghost b = buffer@;
    let mut t1 = seed;
    let mut t2 = seed;
    let mut t3 = seed;
    let mut t4 = seed;
    let mut t5 = seed;
    let mut t6 = seed;
    let mut k: usize = 0;
    while k < words
        invariant
            b == buffer@,
            buffer.len() >= 0x1000,
            cic == b[0x29B],
            words == n64_word_count(b),
            words * 4 + 0x1000 <= buffer.len(),
            k <= words,
            (t1, t2, t3, t4, t5, t6) == n64_state(b, cic, k as nat),
        decreases words - k,
    {
        let off = 0x1000 + 4 * k;
        let d = read_u32_be(buffer, off);
        let r = rotate_left32(d, d % 32);
        let weird = 0x750 + (4 * k) % 256;
        let n1 = if cic == 0x1C {
            t1.wrapping_add(read_u32_be(buffer, weird) ^ d)
        } else {
            t1.wrapping_add(t5.wrapping_add(r) ^ d)
        };
        let n2 = t2 ^ if t2 > d {
            r
        } else {
            t6.wrapping_add(d) ^ d
        };
        let n3 = t3 ^ d;
        let carry: u32 = match t6.checked_add(d) {
            Some(_) => 0,
            None => 1,
        };
        let n4 = t4.wrapping_add(carry);
        let n5 = t5.wrapping_add(r);
        let n6 = t6.wrapping_add(d);
        t1 = n1;
        t2 = n2;
        t3 = n3;
        t4 = n4;
        t5 = n5;
        t6 = n6;
        k += 1;
    }
    let (c1, c2) = if cic == 0x9E {
        (t6.wrapping_mul(t4).wrapping_add(t3), t5.wrapping_mul(t2).wrapping_add(t1))
    } else if cic == 0x8D {
        ((t6 ^ t4).wrapping_add(t3), (t5 ^ t2).wrapping_add(t1))
    } else {
        (t6 ^ t4 ^ t3, t5 ^ t2 ^ t1)
    };
    Ok((c1, c2))
}

// ---------------------------------------------------------------------------
// The cartridge record
// ---------------------------------------------------------------------------

/// The error a parse fails with, when it fails.
pub open spec fn n64_parse_error(b: Seq<u8>) -> Option<ParseError> {
    match spec_detect_n64_format(b) {
        Err(_) => Some(ParseError::MagicNotFound),
        Ok(f) => if spec_n64_big_endian(b, f).len() < 0x1000 {
            Some(ParseError::BufferTooSmall)
        } else {
            None
        },
    }
}

/// What a successful parse reads from the byte-order-corrected image.
pub open spec fn n64_info_matches(b: Seq<u8>, info: N64RomInfo) -> bool {
    let f = spec_detect_n64_format(b)->Ok_0;
    let be = spec_n64_big_endian(b, f);
    &&& info.rom_format == f
    &&& info.stored_title@ == spec_n64_title(be.subrange(0x20, 0x34))
    &&& info.stored_format@ == spec_utf8_lossy(be.subrange(0x3C, 0x3F))
    &&& info.media == be[0x3B] as char
    &&& info.country_code == be[0x3E]
    &&& info.revision == be[0x3F]
    &&& info.crc1 == spec_u32_be(be, 0x10)
    &&& info.crc2 == spec_u32_be(be, 0x14)
    &&& (info.calculated_crc1, info.calculated_crc2) == spec_n64_crc(be)
    &&& info.rom_sha1@ == spec_sha1(be)
}

impl N64RomInfo {
    /// Parse an N64 image in any byte order: its header fields, the SHA-1 of
    /// the big-endian image and the boot-code checksums.
    pub fn try_from(raw_buffer: &[u8]) -> (r: Result<N64RomInfo, ParseError>)
        ensures
            match r {
                Ok(info) => n64_parse_error(raw_buffer@) is None && n64_info_matches(
                    raw_buffer@,
                    info,
                ),
                Err(e) => n64_parse_error(raw_buffer@) == Some(e),
            },
    {
        let format = match detect_n64_format(raw_buffer) {
            Ok(f) => f,
            Err(_) => {
                return Err(ParseError::MagicNotFound);
            },
        };
        let buffer = correct_n64_byte_order(raw_buffer, format);
        if buffer.len() < 0x40 {
            return Err(ParseError::BufferTooSmall);
        }
        let rom_sha1 = compute_sha1(buffer.as_slice());
        let title_bytes = &buffer.as_slice()[0x20..0x34];
        let stored_title = decode_n64_title(title_bytes);
        let media = buffer[0x3B];
        let country_code = buffer[0x3E];
        let revision = buffer[0x3F];
        let (calculated_crc1, calculated_crc2) = match calculate_n64_crc(buffer.as_slice()) {
            Ok(c) => c,
            Err(_) => {
                return Err(ParseError::BufferTooSmall);
            },
        };
        let format_bytes = &buffer.as_slice()[0x3C..0x3F];
        let format_chars = utf8_lossy(format_bytes);
        let stored_format = string_from_chars(&format_chars);
        let crc1 = read_u32_be(buffer.as_slice(), 0x10);
        let crc2 = read_u32_be(buffer.as_slice(), 0x14);
        assert(title_bytes@ =~= buffer@.subrange(0x20, 0x34));
        assert(format_bytes@ =~= buffer@.subrange(0x3C, 0x3F));
        Ok(
            N64RomInfo {
                rom_format: format,
                stored_title,
                stored_format,
                media: media as char,
                country_code,
                crc1,
                crc2,
                calculated_crc1,
                calculated_crc2,
                revision,
                rom_sha1,
            },
        )
    }
}

/// The catalogue region of a header country code.
pub open spec fn spec_n64_region(code: u8) -> Option<Seq<char>> {
    if code == 0x41 {
        Some("Asia"@)
    } else if code == 0x42 {
        Some("Brazil"@)
    } else if code == 0x43 {
        Some("China"@)
    } else if code == 0x44 {
        Some("Germany"@)
    } else if code == 0x45 {
        Some("USA"@)
    } else if code == 0x46 {
        Some("France"@)
    } else if code == 0x48 {
        Some("Netherlands"@)
    } else if code == 0x49 {
        Some("Italy"@)
    } else if code == 0x4A {
        Some("Japan"@)
    } else if code == 0x4B {
        Some("Korea"@)
    } else if code == 0x4E {
        Some("Canada"@)
    } else if code == 0x50 || code == 0x58 || code == 0x59 {
        Some("Europe"@)
    } else if code == 0x53 {
        Some("Spain"@)
    } else if code == 0x55 {
        Some("Australia"@)
    } else if code == 0x57 {
        Some("Scandinavia"@)
    } else {
        None
    }
}

fn n64_region(code: u8) -> (r: Option<String>)
    ensures
        opt_view(r) == spec_n64_region(code),
{
    let s: Option<&str> = if code == 0x41 {
        Some("Asia")
    } else if code == 0x42 {
        Some("Brazil")
    } else if code == 0x43 {
        Some("China")
    } else if code == 0x44 {
        Some("Germany")
    } else if code == 0x45 {
        Some("USA")
    } else if code == 0x46 {
        Some("France")
    } else if code == 0x48 {
        Some("Netherlands")
    } else if code == 0x49 {
        Some("Italy")
    } else if code == 0x4A {
        Some("Japan")
    } else if code == 0x4B {
        Some("Korea")
    } else if code == 0x4E {
        Some("Canada")
    } else if code == 0x50 || code == 0x58 || code == 0x59 {
        Some("Europe")
    } else if code == 0x53 {
        Some("Spain")
    } else if code == 0x55 {
        Some("Australia")
    } else if code == 0x57 {
        Some("Scandinavia")
    } else {
        None
    };
    match s {
        Some(t) => Some(String::from_str(t)),
        None => None,
    }
}

impl RomInfo for N64RomInfo {
    fn console(&self) -> (r: &'static str)
        ensures
            r@ == "Nintendo 64"@,
    {
        "Nintendo 64"
    }

    fn dat_meta(&self) -> (r: DatMeta)
        ensures
            opt_view(r.title) == spec_non_empty(self.stored_title@),
            opt_view(r.region) == spec_n64_region(self.country_code),
            opt_view(r.version) == spec_dat_revision(self.revision),
            opt_view(r.serial) == Some(seq![self.media] + self.stored_format@),
            opt_view(r.machine_id) == Some(seq![self.media] + self.stored_format@),
            r.date is None,
            r.manufacturer is None,
    {
        let mut serial_chars: Vec<char> = Vec::new();
        serial_chars.push(self.media);
        crate::text::append_str(&mut serial_chars, self.stored_format.as_str());
        let serial = string_from_chars(&serial_chars);
        DatMeta {
            title: non_empty(self.stored_title.as_str()),
            region: n64_region(self.country_code),
            version: dat_revision(self.revision),
            date: None,
            manufacturer: None,
            serial: non_empty(serial.as_str()),
            machine_id: non_empty(serial.as_str()),
        }
    }
}

impl StoredChecksum<(u32, u32)> for N64RomInfo {
    fn stored_checksum(&self) -> (r: (u32, u32))
        ensures
            r == (self.crc1, self.crc2),
    {
        (self.crc1, self.crc2)
    }

    fn calculated_checksum(&self) -> (r: (u32, u32))
        ensures
            r == (self.calculated_crc1, self.calculated_crc2),
    {
        (self.calculated_crc1, self.calculated_crc2)
    }

    fn checksum_matches(&self) -> (r: bool)
        ensures
            r == (self.crc1 == self.calculated_crc1 && self.crc2 == self.calculated_crc2),
    {
        self.crc1 == self.calculated_crc1 && self.crc2 == self.calculated_crc2
    }
}

impl RomHash for N64RomInfo {
    fn sha1(&self) -> (r: [u8; 20])
        ensures
            r@ == self.rom_sha1@,
    {
        self.rom_sha1
    }
}

/// Putting a dump in big-endian order gives a big-endian dump: whatever
/// order the magic names, the corrected buffer starts with the big-endian
/// magic.
pub proof fn law_corrected_order_is_big_endian(b: Seq<u8>)
    requires
        spec_detect_n64_format(b) is Ok,
    ensures
        spec_detect_n64_format(spec_n64_big_endian(b, spec_detect_n64_format(b)->Ok_0)) == Ok::<
            N64Format,
            N64ParseError,
        >(N64Format::BigEndian),
{
    let f = spec_detect_n64_format(b)->Ok_0;
    let c = spec_n64_big_endian(b, f);
    let m = b[0] as int * 0x1000000 + b[1] as int * 0x10000 + b[2] as int * 0x100 + b[3] as int;
    assert(0 <= m <= u32::MAX);
    assert(spec_u32_be(b, 0) == m);
    match f {
        N64Format::BigEndian => {},
        N64Format::LittleEndian => {
            assert(m == 0x40123780);
            assert(b[0] == 0x40 && b[1] == 0x12 && b[2] == 0x37 && b[3] == 0x80);
            assert(c[0] == b[3] && c[1] == b[2] && c[2] == b[1] && c[3] == b[0]);
            assert(spec_u32_be(c, 0) == 0x80371240);
        },
        N64Format::ByteSwapped => {
            assert(m == 0x37804012);
            assert(b[0] == 0x37 && b[1] == 0x80 && b[2] == 0x40 && b[3] == 0x12);
            assert(c[0] == b[1] && c[1] == b[0] && c[2] == b[3] && c[3] == b[2]);
            assert(spec_u32_be(c, 0) == 0x80371240);
        },
    }
}

// ---------------------------------------------------------------------------
// Report
// ---------------------------------------------------------------------------

/// The region a country code names, as the report writes it.
pub open spec fn n64_region_name(c: u8) -> Seq<char> {
    if c == 0x37 {
        "Beta"@
    } else if c == 0x41 {
        "Asia (NTSC)"@
    } else if c == 0x42 {
        "Brazil"@
    } else if c == 0x43 {
        "China"@
    } else if c == 0x44 {
        "Germany"@
    } else if c == 0x45 {
        "North America"@
    } else if c == 0x46 {
        "French"@
    } else if c == 0x47 {
        "Gateway 64 (NTSC)"@
    } else if c == 0x48 {
        "Dutch"@
    } else if c == 0x49 {
        "Italy"@
    } else if c == 0x4A {
        "Japan"@
    } else if c == 0x4B {
        "Korea"@
    } else if c == 0x4C {
        "Gateway 64 (PAL)"@
    } else if c == 0x4E {
        "Canada"@
    } else if c == 0x50 {
        "Europe (basic spec.)"@
    } else if c == 0x53 {
        "Spain"@
    } else if c == 0x55 {
        "Australia"@
    } else if c == 0x57 {
        "Scandinavia"@
    } else if c == 0x58 || c == 0x59 {
        "Europe"@
    } else {
        "Unknown"@
    }
}

fn n64_region_text(c: u8) -> (r: &'static str)
    ensures
        r@ == n64_region_name(c),
{
    if c == 0x37 {
        "Beta"
    } else if c == 0x41 {
        "Asia (NTSC)"
    } else if c == 0x42 {
        "Brazil"
    } else if c == 0x43 {
        "China"
    } else if c == 0x44 {
        "Germany"
    } else if c == 0x45 {
        "North America"
    } else if c == 0x46 {
        "French"
    } else if c == 0x47 {
        "Gateway 64 (NTSC)"
    } else if c == 0x48 {
        "Dutch"
    } else if c == 0x49 {
        "Italy"
    } else if c == 0x4A {
        "Japan"
    } else if c == 0x4B {
        "Korea"
    } else if c == 0x4C {
        "Gateway 64 (PAL)"
    } else if c == 0x4E {
        "Canada"
    } else if c == 0x50 {
        "Europe (basic spec.)"
    } else if c == 0x53 {
        "Spain"
    } else if c == 0x55 {
        "Australia"
    } else if c == 0x57 {
        "Scandinavia"
    } else if c == 0x58 || c == 0x59 {
        "Europe"
    } else {
        "Unknown"
    }
}

/// The media a media character names.
pub open spec fn n64_media_name(m: char) -> Seq<char> {
    if m == 'N' {
        "Cartridge"@
    } else if m == 'D' {
        "64DD disk"@
    } else if m == 'C' {
        "Cartridge part of expandable game"@
    } else if m == 'E' {
        "64DD expansion for cart"@
    } else if m == 'Z' {
        "Aleck64 cart"@
    } else {
        "Unknown"@
    }
}

fn n64_media_text(m: char) -> (r: &'static str)
    ensures
        r@ == n64_media_name(m),
{
    if m == 'N' {
        "Cartridge"
    } else if m == 'D' {
        "64DD disk"
    } else if m == 'C' {
        "Cartridge part of expandable game"
    } else if m == 'E' {
        "64DD expansion for cart"
    } else if m == 'Z' {
        "Aleck64 cart"
    } else {
        "Unknown"
    }
}

/// The title without spaces, colons and apostrophes, for a file name.
pub open spec fn file_name_title(s: Seq<char>) -> Seq<char>
    decreases s.len(),
{
    if s.len() == 0 {
        Seq::empty()
    } else if s.last() == ' ' || s.last() == ':' || s.last() == '\'' {
        file_name_title(s.drop_last())
    } else {
        file_name_title(s.drop_last()).push(s.last())
    }
}

/// The file extension of a byte order.
pub open spec fn n64_extension(f: N64Format) -> Seq<char> {
    match f {
        N64Format::BigEndian => "z64"@,
        N64Format::LittleEndian => "n64"@,
        N64Format::ByteSwapped => "v64"@,
    }
}

/// The report of an N64 cartridge.
pub open spec fn n64_report(i: N64RomInfo) -> Seq<char> {
    "Stored title: "@ + i.stored_title@ + "\n"@ + "Stored Id: "@ + seq![i.media] + i.stored_format@
        + "\n"@ + "Region Code: "@ + n64_region_name(i.country_code) + "\n"@ + "Revision: "@
        + spec_decimal(i.revision as nat) + "\n"@ + "Media Format: "@ + n64_media_name(i.media)
        + "\n"@ + "Canonical file name: "@ + file_name_title(i.stored_title@) + "."@ + seq![i.media]
        + i.stored_format@ + "."@ + n64_extension(i.rom_format) + "\n"@ + checksum_pair_text(
        (i.crc1, i.crc2),
        (i.calculated_crc1, i.calculated_crc2),
    ) + "\n"@ + sha1_text(i.rom_sha1@) + "\n"@
}

fn push_file_name_title(out: &mut Vec<char>, s: &str)
    ensures
        final(out)@ == old(out)@ + file_name_title(s@),
{
    let v = chars_of(s);
    let ghost start = out@;
    let mut i: usize = 0;
    while i < v.len()
        invariant
            v@ == s@,
            i <= v.len(),
            out@ == start + file_name_title(v@.take(i as int)),
        decreases v.len() - i,
    {
        assert(v@.take(i + 1).drop_last() =~= v@.take(i as int));
        let c = v[i];
        if !(c == ' ' || c == ':' || c == '\'') {
            out.push(c);
        }
        i += 1;
        assert(out@ =~= start + file_name_title(v@.take(i as int)));
    }
    assert(v@.take(i as int) =~= v@);
}

impl N64RomInfo {
    /// The report the inspector prints for the cartridge.
    pub fn describe(&self) -> (r: String)
        ensures
            r@ == n64_report(*self),
    {
        let mut t: Vec<char> = Vec::new();
        append_str(&mut t, "Stored title: ");
        append_str(&mut t, self.stored_title.as_str());
        append_str(&mut t, "\n");
        append_str(&mut t, "Stored Id: ");
        t.push(self.media);
        append_str(&mut t, self.stored_format.as_str());
        append_str(&mut t, "\n");
        append_str(&mut t, "Region Code: ");
        append_str(&mut t, n64_region_text(self.country_code));
        append_str(&mut t, "\n");
        append_str(&mut t, "Revision: ");
        push_dec(&mut t, self.revision as u64);
        append_str(&mut t, "\n");
        append_str(&mut t, "Media Format: ");
        append_str(&mut t, n64_media_text(self.media));
        append_str(&mut t, "\n");
        append_str(&mut t, "Canonical file name: ");
        push_file_name_title(&mut t, self.stored_title.as_str());
        append_str(&mut t, ".");
        t.push(self.media);
        append_str(&mut t, self.stored_format.as_str());
        append_str(&mut t, ".");
        let ext = match self.rom_format {
            N64Format::BigEndian => "z64",
            N64Format::LittleEndian => "n64",
            N64Format::ByteSwapped => "v64",
        };
        append_str(&mut t, ext);
        append_str(&mut t, "\n");
        push_checksum_pair(&mut t, (self.crc1, self.crc2), (self.calculated_crc1, self.calculated_crc2));
        append_str(&mut t, "\n");
        push_sha1(&mut t, &self.rom_sha1);
        append_str(&mut t, "\n");
        assert(t@ =~= n64_report(*self));
        string_from_chars(&t)
    }
}

} // verus!
