//! Locating the SNES internal header and computing the SNES checksum.

use crate::bits::{next_pow2, is_pow2, pow2_floor, shl_wrapping, spec_npot, spec_is_pow2, spec_pow2_floor, shl_wrap};
use crate::bytes::{read_u16_le, spec_u16_le, all_eq, spec_all_eq};
use vstd::prelude::*;

verus! {

pub const SNES_ROM_MIN_BYTES: usize = 0x8000;
pub const SNES_ROM_MAX_BYTES: usize = 0x800000;
pub const TRAINER_BYTES: usize = 512;
pub const HEADER_TITLE_LEN: usize = 21;
pub const HEADER_MAP_MODE_OFFSET: usize = 0x15;
pub const HEADER_CART_TYPE_OFFSET: usize = 0x16;
pub const HEADER_ROM_SIZE_OFFSET: usize = 0x17;
pub const HEADER_RAM_SIZE_OFFSET: usize = 0x18;
pub const HEADER_REGION_OFFSET: usize = 0x19;
pub const HEADER_REVISION_OFFSET: usize = 0x1B;
pub const HEADER_COMPLEMENT_OFFSET: usize = 0x1C;
pub const HEADER_CHECKSUM_OFFSET: usize = 0x1E;
pub const HEADER_NMI_VECTOR_OFFSET: usize = 0x3A;
pub const HEADER_RESET_VECTOR_OFFSET: usize = 0x3C;
pub const HEADER_GAME_CODE_OFFSET: usize = 0x0E;
pub const HEADER_SCAN_WINDOW_BYTES: usize = 0x200;

/// A copier (trainer) header: the file is 512 bytes past a 1 KiB multiple,
/// carries a known marker at byte 7 and is zero-padded up to byte 512.
pub open spec fn spec_has_copier_trainer(b: Seq<u8>) -> bool {
    &&& b.len() > 1024
    &&& b.len() % 1024 == 512
    &&& ((b[7] == 0 && b[8] == 0xAA && b[9] == 0xBB && b[10] == 0x04) || (b[7] == 0 && b[8] == 0
        && b[9] == 0 && b[10] == 0))
    &&& spec_all_eq(b, 11, 512, 0)
}

pub fn has_copier_trainer(buffer: &[u8]) -> (r: bool)
    ensures
        r == spec_has_copier_trainer(buffer@),
{
    buffer.len() > 1024 && buffer.len() % 1024 == 512 && ((buffer[7] == 0 && buffer[8] == 0xAA
        && buffer[9] == 0xBB && buffer[10] == 0x04) || (buffer[7] == 0 && buffer[8] == 0
        && buffer[9] == 0 && buffer[10] == 0)) && all_eq(buffer, 11, 512, 0)
}

/// ROM size a header size byte declares: `0x400` shifted left by the byte
/// (the shift taken modulo 64, low 64 bits kept).
pub open spec fn spec_decoded_rom_size(size_byte: u8) -> nat {
    shl_wrap(0x400, (size_byte % 64) as nat)
}

pub fn decoded_rom_size(size_byte: u8) -> (r: usize)
    ensures
        r == spec_decoded_rom_size(size_byte) as usize,
{
    shl_wrapping(0x400, (size_byte % 64) as u32) as usize
}

/// Candidate header bases, in the order they are tried.
pub open spec fn base_candidate(i: int) -> int {
    if i == 0 {
        0x7FC0
    } else if i == 1 {
        0x40FFC0
    } else if i == 2 {
        0x81C0
    } else if i == 3 {
        0x4081C0
    } else if i == 4 {
        0x0000
    } else if i == 5 {
        0x0B17C0
    } else {
        0xFFC0
    }
}

fn candidate(i: usize) -> (r: usize)
    requires
        i < 7,
    ensures
        r == base_candidate(i as int),
{
    match i {
        0 => 0x7FC0,
        1 => 0x40FFC0,
        2 => 0x81C0,
        3 => 0x4081C0,
        4 => 0x0000,
        5 => 0x0B17C0,
        _ => 0xFFC0,
    }
}

pub open spec fn is_alnum(c: u8) -> bool {
    (0x30 <= c <= 0x39) || (0x41 <= c <= 0x5A) || (0x61 <= c <= 0x7A)
}

fn alnum(c: u8) -> (r: bool)
    ensures
        r == is_alnum(c),
{
    (0x30 <= c && c <= 0x39) || (0x41 <= c && c <= 0x5A) || (0x61 <= c && c <= 0x7A)
}

/// Header base the map-mode nibble implies.
pub open spec fn mapper_header_location(mode: int) -> int {
    if mode == 0 {
        0x7FC0
    } else if mode == 1 {
        0xFFC0
    } else if mode == 3 {
        0x7FC0
    } else if mode == 5 {
        0x40FFC0
    } else {
        0
    }
}

pub open spec fn valid_mapper_mode(mode: int) -> bool {
    mode == 0 || mode == 1 || mode == 2 || mode == 3 || mode == 5
}

/// A power-of-two size within the SNES range.
pub open spec fn valid_snes_size(n: int) -> bool {
    spec_is_pow2(n as nat) && SNES_ROM_MIN_BYTES <= n <= SNES_ROM_MAX_BYTES
}

pub open spec fn checksum_pair_ok(b: Seq<u8>, o: int) -> bool {
    let c = spec_u16_le(b, o + 0x1E);
    let k = spec_u16_le(b, o + 0x1C);
    c == 0xFFFF - k && c != 0 && k != 0
}

pub open spec fn sizes_match(b: Seq<u8>, o: int, eff: int) -> bool {
    spec_npot((spec_decoded_rom_size(b[o + 0x17]) as usize) as nat) == spec_npot(eff as nat)
}

pub open spec fn reset_vector_ok(b: Seq<u8>, o: int) -> bool {
    spec_u16_le(b, o + 0x3C) >= 0x8000
}

/// Whether pass `pass` (1 to 4) accepts the header at `base` shifted by
/// `hdr` copier bytes.
pub open spec fn pass_accepts(b: Seq<u8>, base: int, hdr: int, pass: int) -> bool {
    let o = base + hdr;
    let eff = b.len() - hdr;
    if !(b.len() > base + 0x200) {
        false
    } else if pass == 1 {
        let rs = (spec_decoded_rom_size(b[o + 0x17]) as usize) as int;
        &&& o + 0x20 <= b.len()
        &&& base == mapper_header_location((b[o + 0x15] % 16) as int)
        &&& checksum_pair_ok(b, o)
        &&& (sizes_match(b, o, eff) || (rs > 0 && rs <= eff && valid_snes_size(eff)) || (
        valid_snes_size(eff) && o + 0x3E <= b.len() && reset_vector_ok(b, o)))
        &&& is_alnum(b[o])
    } else if pass == 2 {
        &&& o + 0x20 <= b.len()
        &&& sizes_match(b, o, eff)
        &&& is_alnum(b[o])
        &&& checksum_pair_ok(b, o)
    } else if pass == 3 {
        let rsb = b[o + 0x17];
        &&& o + 0x3E <= b.len()
        &&& is_alnum(b[o]) && is_alnum(b[o + 1]) && is_alnum(b[o + 2]) && is_alnum(b[o + 3])
        &&& valid_mapper_mode((b[o + 0x15] % 16) as int)
        &&& ((5 <= rsb <= 13 && sizes_match(b, o, eff)) || (rsb == 0 && valid_snes_size(eff)
            && reset_vector_ok(b, o)))
    } else {
        let nmi = spec_u16_le(b, o + 0x3A);
        &&& o + 0x3E <= b.len()
        &&& b[o] == 0
        &&& reset_vector_ok(b, o)
        &&& (nmi >= 0x8000 || nmi == 0)
        &&& valid_mapper_mode((b[o + 0x15] % 16) as int)
        &&& SNES_ROM_MIN_BYTES <= eff <= SNES_ROM_MAX_BYTES
    }
}

/// Header offset of the first candidate (from index `i`) that `pass` accepts.
pub open spec fn scan_pass(b: Seq<u8>, hdr: int, pass: int, i: int) -> Option<int>
    decreases 7 - i,
{
    if i >= 7 || i < 0 {
        None
    } else if pass_accepts(b, base_candidate(i), hdr, pass) {
        Some(base_candidate(i) + hdr)
    } else {
        scan_pass(b, hdr, pass, i + 1)
    }
}

pub open spec fn copier_offset(b: Seq<u8>) -> int {
    if spec_has_copier_trainer(b) {
        TRAINER_BYTES as int
    } else {
        0
    }
}

/// Where the SNES internal header lies: the first candidate accepted by the
/// strictest pass that accepts any; `None` when the file is too small, too
/// large or no pass accepts a candidate.
pub open spec fn spec_detect_header_offset(b: Seq<u8>) -> Option<int> {
    if b.len() < SNES_ROM_MIN_BYTES || b.len() > SNES_ROM_MAX_BYTES {
        None
    } else {
        let hdr = copier_offset(b);
        match scan_pass(b, hdr, 1, 0) {
            Some(o) => Some(o),
            None => match scan_pass(b, hdr, 2, 0) {
                Some(o) => Some(o),
                None => match scan_pass(b, hdr, 3, 0) {
                    Some(o) => Some(o),
                    None => scan_pass(b, hdr, 4, 0),
                },
            },
        }
    }
}

/// The message `detect_header_offset` fails with.
pub open spec fn spec_detect_error(b: Seq<u8>) -> Seq<char> {
    if b.len() < SNES_ROM_MIN_BYTES {
        "File too small for SNES ROM"@
    } else if b.len() > SNES_ROM_MAX_BYTES {
        "File too large for SNES ROM"@
    } else {
        "Could not detect SNES header"@
    }
}

fn sizes_match_exec(buffer: &[u8], o: usize, eff: usize) -> (r: bool)
    requires
        o + 0x17 < buffer.len(),
    ensures
        r == sizes_match(buffer@, o as int, eff as int),
{
    let rs = decoded_rom_size(buffer[o + HEADER_ROM_SIZE_OFFSET]);
    next_pow2(rs as u64) == next_pow2(eff as u64)
}

fn valid_snes_size_exec(n: usize) -> (r: bool)
    ensures
        r == valid_snes_size(n as int),
{
    is_pow2(n as u64) && SNES_ROM_MIN_BYTES <= n && n <= SNES_ROM_MAX_BYTES
}

fn checksum_pair_ok_exec(buffer: &[u8], o: usize) -> (r: bool)
    requires
        o + 0x20 <= buffer.len(),
    ensures
        r == checksum_pair_ok(buffer@, o as int),
{
    let c = read_u16_le(buffer, o + HEADER_CHECKSUM_OFFSET);
    let k = read_u16_le(buffer, o + HEADER_COMPLEMENT_OFFSET);
    c == 0xFFFF - k && c != 0 && k != 0
}

fn valid_mapper_mode_exec(mode: u8) -> (r: bool)
    ensures
        r == valid_mapper_mode(mode as int),
{
    mode == 0 || mode == 1 || mode == 2 || mode == 3 || mode == 5
}

fn pass_accepts_exec(buffer: &[u8], base: usize, hdr: usize, pass: u8) -> (r: bool)
    requires
        base <= 0x40FFC0,
        hdr <= TRAINER_BYTES,
        buffer.len() >= SNES_ROM_MIN_BYTES,
    ensures
        r == pass_accepts(buffer@, base as int, hdr as int, pass as int),
{
    let len = buffer.len();
    if !(len > base + HEADER_SCAN_WINDOW_BYTES) {
        return false;
    }
    let o = base + hdr;
    let eff = len - hdr;
    if pass == 1 {
        if !(o + 0x20 <= len) {
            return false;
        }
        let mode = buffer[o + HEADER_MAP_MODE_OFFSET] % 16;
        let loc: usize = match mode {
            0 => 0x7FC0,
            1 => 0xFFC0,
            3 => 0x7FC0,
            5 => 0x40FFC0,
            _ => 0,
        };
        let rs = decoded_rom_size(buffer[o + HEADER_ROM_SIZE_OFFSET]);
        let size_ok = sizes_match_exec(buffer, o, eff) || (rs > 0 && rs <= eff
            && valid_snes_size_exec(eff)) || (valid_snes_size_exec(eff) && o + 0x3E <= len
            && read_u16_le(buffer, o + HEADER_RESET_VECTOR_OFFSET) >= 0x8000);
        base == loc && checksum_pair_ok_exec(buffer, o) && size_ok && alnum(buffer[o])
    } else if pass == 2 {
        o + 0x20 <= len && sizes_match_exec(buffer, o, eff) && alnum(buffer[o])
            && checksum_pair_ok_exec(buffer, o)
    } else if pass == 3 {
        if !(o + 0x3E <= len) {
            return false;
        }
        let rsb = buffer[o + HEADER_ROM_SIZE_OFFSET];
        alnum(buffer[o]) && alnum(buffer[o + 1]) && alnum(buffer[o + 2]) && alnum(buffer[o + 3])
            && valid_mapper_mode_exec(buffer[o + HEADER_MAP_MODE_OFFSET] % 16) && ((5 <= rsb
            && rsb <= 13 && sizes_match_exec(buffer, o, eff)) || (rsb == 0
            && valid_snes_size_exec(eff) && read_u16_le(buffer, o + HEADER_RESET_VECTOR_OFFSET)
            >= 0x8000))
    } else {
        if !(o + 0x3E <= len) {
            return false;
        }
        let nmi = read_u16_le(buffer, o + HEADER_NMI_VECTOR_OFFSET);
        buffer[o] == 0 && read_u16_le(buffer, o + HEADER_RESET_VECTOR_OFFSET) >= 0x8000 && (nmi
            >= 0x8000 || nmi == 0) && valid_mapper_mode_exec(buffer[o + HEADER_MAP_MODE_OFFSET] % 16)
            && SNES_ROM_MIN_BYTES <= eff && eff <= SNES_ROM_MAX_BYTES
    }
}

fn scan_pass_exec(buffer: &[u8], hdr: usize, pass: u8) -> (r: Option<usize>)
    requires
        hdr <= TRAINER_BYTES,
        buffer.len() >= SNES_ROM_MIN_BYTES,
    ensures
        r is None <==> scan_pass(buffer@, hdr as int, pass as int, 0) is None,
        r matches Some(x) ==> scan_pass(buffer@, hdr as int, pass as int, 0) == Some(x as int),
{
    let mut i: usize = 0;
    while i < 7
        invariant
            i <= 7,
            hdr <= TRAINER_BYTES,
            buffer.len() >= SNES_ROM_MIN_BYTES,
            scan_pass(buffer@, hdr as int, pass as int, 0) == scan_pass(
                buffer@,
                hdr as int,
                pass as int,
                i as int,
            ),
        decreases 7 - i,
    {
        let base = candidate(i);
        if pass_accepts_exec(buffer, base, hdr, pass) {
            return Some(base + hdr);
        }
        i += 1;
    }
    None
}

/// Locate the SNES internal header (its offset in the file).
pub fn detect_header_offset(buffer: &[u8]) -> (r: Result<usize, &'static str>)
    ensures
        match r {
            Ok(o) => spec_detect_header_offset(buffer@) == Some(o as int),
            Err(m) => spec_detect_header_offset(buffer@) is None && m@ == spec_detect_error(
                buffer@,
            ),
        },
{
    if buffer.len() < SNES_ROM_MIN_BYTES {
        return Err("File too small for SNES ROM");
    }
    if buffer.len() > SNES_ROM_MAX_BYTES {
        return Err("File too large for SNES ROM");
    }
    let hdr = if has_copier_trainer(buffer) {
        TRAINER_BYTES
    } else {
        0
    };
    if let Some(o) = scan_pass_exec(buffer, hdr, 1) {
        return Ok(o);
    }
    if let Some(o) = scan_pass_exec(buffer, hdr, 2) {
        return Ok(o);
    }
    if let Some(o) = scan_pass_exec(buffer, hdr, 3) {
        return Ok(o);
    }
    if let Some(o) = scan_pass_exec(buffer, hdr, 4) {
        return Ok(o);
    }
    Err("Could not detect SNES header")
}

/// Sum of a byte sequence modulo 2^16, added byte by byte.
pub open spec fn sum16(s: Seq<u8>) -> u16
    decreases s.len(),
{
    if s.len() == 0 {
        0
    } else {
        ((sum16(s.drop_last()) + s.last()) % 0x10000) as u16
    }
}

/// Exact sum of a byte sequence.
pub open spec fn sum_nat(s: Seq<u8>) -> nat
    decreases s.len(),
{
    if s.len() == 0 {
        0
    } else {
        sum_nat(s.drop_last()) + (s.last() as nat)
    }
}

pub proof fn lemma_sum_nat_bound(s: Seq<u8>)
    ensures
        sum_nat(s) <= 255 * s.len(),
    decreases s.len(),
{
    if s.len() > 0 {
        lemma_sum_nat_bound(s.drop_last());
    }
}

/// SNES checksum: the byte sum over the declared ROM size; a file shorter
/// than the declared size is split at the largest power of two not above
/// its size, and the part past that boundary is counted as often as needed
/// to fill the declared size (a file whose size is a power of two has no
/// such part and is summed once).
pub open spec fn spec_snes_checksum(d: Seq<u8>, rom_size: int) -> u16 {
    if rom_size <= d.len() {
        sum16(d.take(rom_size))
    } else {
        let base = spec_pow2_floor(d.len());
        let rem = d.len() - base;
        if rem == 0 {
            sum16(d)
        } else {
            let bs = sum_nat(d.take(base as int));
            let rs = sum_nat(d.skip(base as int));
            let mc = ((rom_size - base) / rem) % 0x1_0000_0000;
            (((bs + (rs * mc) % 0x1_0000_0000) % 0x1_0000_0000) % 0x10000) as u16
        }
    }
}

pub fn sum16_prefix(data: &[u8], n: usize) -> (r: u16)
    requires
        n <= data.len(),
    ensures
        r == sum16(data@.take(n as int)),
{
    let mut acc: u16 = 0;
    let mut i: usize = 0;
    while i < n
        invariant
            i <= n <= data.len(),
            acc == sum16(data@.take(i as int)),
        decreases n - i,
    {
        assert(data@.take(i + 1).drop_last() =~= data@.take(i as int));
        acc = acc.wrapping_add(data[i] as u16);
        i += 1;
    }
    acc
}

/// A prefix sums to no more than the whole.
pub proof fn lemma_sum_nat_prefix(s: Seq<u8>, k: int)
    requires
        0 <= k <= s.len(),
    ensures
        sum_nat(s.take(k)) <= sum_nat(s),
    decreases s.len() - k,
{
    if k < s.len() {
        lemma_sum_nat_prefix(s, k + 1);
        assert(s.take(k + 1).drop_last() =~= s.take(k));
    } else {
        assert(s.take(k) =~= s);
    }
}

fn sum32_range(data: &[u8], lo: usize, hi: usize) -> (r: u32)
    requires
        lo <= hi <= data.len(),
        sum_nat(data@.subrange(lo as int, hi as int)) <= 0xFFFF_FFFF,
    ensures
        r == sum_nat(data@.subrange(lo as int, hi as int)),
{
    let mut acc: u32 = 0;
    let mut i: usize = lo;
    while i < hi
        invariant
            lo <= i <= hi <= data.len(),
            sum_nat(data@.subrange(lo as int, hi as int)) <= 0xFFFF_FFFF,
            acc == sum_nat(data@.subrange(lo as int, i as int)),
        decreases hi - i,
    {
        proof {
            assert(data@.subrange(lo as int, i + 1).drop_last() =~= data@.subrange(lo as int, i as int));
            assert(data@.subrange(lo as int, hi as int).take(i + 1 - lo) =~= data@.subrange(lo as int, i + 1));
            lemma_sum_nat_prefix(data@.subrange(lo as int, hi as int), i + 1 - lo);
        }
        acc = acc + data[i] as u32;
        i += 1;
    }
    acc
}

/// The 32-bit sums the checksum takes, of the part below the largest power
/// of two and of the part past it, do not overflow (nothing is summed in 32
/// bits when the declared size fits in the file or the file size is a power
/// of two).
pub open spec fn snes_sums_fit(d: Seq<u8>, rom_size: int) -> bool {
    let base = spec_pow2_floor(d.len()) as int;
    ||| rom_size <= d.len()
    ||| base == d.len()
    ||| (sum_nat(d.take(base)) <= 0xFFFF_FFFF && sum_nat(d.skip(base)) <= 0xFFFF_FFFF)
}

/// An image of at most 0x1010101 bytes never overflows the checksum sums.
pub proof fn lemma_small_sums_fit(d: Seq<u8>, rom_size: int)
    requires
        d.len() <= 0x1010101,
    ensures
        snes_sums_fit(d, rom_size),
{
    let base = spec_pow2_floor(d.len()) as int;
    crate::bits::lemma_npot_half_le(d.len());
    if rom_size > d.len() && base < d.len() {
        assert(0 <= base <= d.len());
        lemma_sum_nat_bound(d.take(base));
        lemma_sum_nat_bound(d.skip(base));
        assert(d.take(base).len() <= 0x1010101);
        assert(d.skip(base).len() <= 0x1010101);
        assert(255 * d.take(base).len() <= 0xFFFF_FFFF) by (nonlinear_arith)
            requires
                d.take(base).len() <= 0x1010101;
        assert(255 * d.skip(base).len() <= 0xFFFF_FFFF) by (nonlinear_arith)
            requires
                d.skip(base).len() <= 0x1010101;
    }
}

/// The SNES checksum of `data` for a declared ROM size.
pub fn snes_checksum(data: &[u8], rom_size: usize) -> (r: u16)
    requires
        snes_sums_fit(data@, rom_size as int),
    ensures
        r == spec_snes_checksum(data@, rom_size as int),
{
    let file_size = data.len();
    if rom_size <= file_size {
        return sum16_prefix(data, rom_size);
    }
    let pf = pow2_floor(file_size as u64);
    proof {
        crate::bits::lemma_npot_half_le(file_size as nat);
        assert(file_size as u64 as nat == file_size as nat);
    }
    assert(pf <= file_size);
    let base_size = pf as usize;
    let remainder_size = file_size - base_size;
    if remainder_size == 0 {
        assert(data@.take(file_size as int) =~= data@);
        return sum16_prefix(data, file_size);
    }
    assert(data@.subrange(0, base_size as int) =~= data@.take(base_size as int));
    assert(data@.subrange(base_size as int, file_size as int) =~= data@.skip(base_size as int));
    let base_sum = sum32_range(data, 0, base_size);
    let remainder_sum = sum32_range(data, base_size, file_size);
    let mirror_count = (rom_size - base_size) / remainder_size;
    let mc32 = (mirror_count as u64 % 0x1_0000_0000) as u32;
    let prod = remainder_sum.wrapping_mul(mc32);
    let total = base_sum.wrapping_add(prod);
    assert(total == (base_sum + prod) % 0x1_0000_0000);
    (total % 0x10000) as u16
}

/// The header ROM size when it is within the SNES range and rounds to the
/// same power of two as the file; the file size otherwise.
pub open spec fn spec_effective_rom_size(header_rom_size: int, file_rom_size: int) -> int {
    if SNES_ROM_MIN_BYTES <= header_rom_size <= SNES_ROM_MAX_BYTES && spec_npot(
        header_rom_size as nat,
    ) == spec_npot(file_rom_size as nat) {
        header_rom_size
    } else {
        file_rom_size
    }
}

pub fn effective_rom_size(header_rom_size: usize, file_rom_size: usize) -> (r: usize)
    ensures
        r == spec_effective_rom_size(header_rom_size as int, file_rom_size as int),
{
    assert(header_rom_size as u64 as nat == header_rom_size as nat);
    assert(file_rom_size as u64 as nat == file_rom_size as nat);
    if SNES_ROM_MIN_BYTES <= header_rom_size && header_rom_size <= SNES_ROM_MAX_BYTES
        && next_pow2(header_rom_size as u64) == next_pow2(file_rom_size as u64) {
        header_rom_size
    } else {
        file_rom_size
    }
}

} // verus!
