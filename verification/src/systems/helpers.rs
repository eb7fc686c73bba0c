//! Helpers shared by several system parsers: optional text fields, region
//! codes and overdump detection.

use crate::ext::{nfkc, shift_jis_decode, spec_nfkc, spec_shift_jis, spec_utf8_lossy, string_from_chars, utf8_lossy, utf8_strict};
use crate::text::chars_of;
use vstd::utf8::{decode_utf8, valid_utf8};
use crate::text::{append_chars, decimal_chars, spec_decimal, trim_both, trim_both_chars, CharClass};
use crate::traits::opt_view;
use vstd::prelude::*;

verus! {

/// `Some(value)` when it is non-empty.
pub open spec fn spec_non_empty(value: Seq<char>) -> Option<Seq<char>> {
    if value.len() > 0 {
        Some(value)
    } else {
        None
    }
}

pub fn non_empty(value: &str) -> (r: Option<String>)
    ensures
        opt_view(r) == spec_non_empty(value@),
{
    if value.is_empty() {
        None
    } else {
        Some(String::from_str(value))
    }
}

/// The first non-empty entry of `values`.
pub open spec fn spec_first_non_empty(values: Seq<Seq<char>>) -> Option<Seq<char>>
    decreases values.len(),
{
    if values.len() == 0 {
        None
    } else if values[0].len() > 0 {
        Some(values[0])
    } else {
        spec_first_non_empty(values.drop_first())
    }
}

pub open spec fn str_views(values: Seq<&str>) -> Seq<Seq<char>> {
    values.map_values(|s: &str| s@)
}

pub fn first_non_empty(values: &[&str]) -> (r: Option<String>)
    ensures
        opt_view(r) == spec_first_non_empty(str_views(values@)),
{
    let mut i: usize = 0;
    proof {
        assert(str_views(values@).skip(0) =~= str_views(values@));
    }
    while i < values.len()
        invariant
            i <= values.len(),
            spec_first_non_empty(str_views(values@)) == spec_first_non_empty(
                str_views(values@).skip(i as int),
            ),
        decreases values.len() - i,
    {
        let v: &str = values[i];
        proof {
            assert(str_views(values@).skip(i as int)[0] == v@);
            assert(str_views(values@).skip(i as int).drop_first() =~= str_views(values@).skip(
                i + 1,
            ));
        }
        if !v.is_empty() {
            return Some(String::from_str(v));
        }
        i += 1;
    }
    proof {
        assert(str_views(values@).skip(i as int).len() == 0);
    }
    None
}

/// `"Rev {version}"` for a non-zero version.
pub open spec fn spec_dat_revision(version: u8) -> Option<Seq<char>> {
    if version != 0 {
        Some("Rev "@ + spec_decimal(version as nat))
    } else {
        None
    }
}

pub fn dat_revision(version: u8) -> (r: Option<String>)
    ensures
        opt_view(r) == spec_dat_revision(version),
{
    if version == 0 {
        return None;
    }
    let mut v = chars_of("Rev ");
    let d = decimal_chars(version as u64);
    append_chars(&mut v, &d);
    Some(string_from_chars(&v))
}

/// No-Intro region name for a Nintendo region code byte.
pub open spec fn spec_nintendo_region_dat(code: u8) -> Option<Seq<char>> {
    if code == 0x4A {
        Some("Japan"@)
    } else if code == 0x45 {
        Some("USA"@)
    } else if code == 0x50 {
        Some("Europe"@)
    } else if code == 0x44 {
        Some("Germany"@)
    } else if code == 0x46 {
        Some("France"@)
    } else if code == 0x49 {
        Some("Italy"@)
    } else if code == 0x53 {
        Some("Spain"@)
    } else if code == 0x48 {
        Some("Netherlands"@)
    } else if code == 0x4B {
        Some("Korea"@)
    } else if code == 0x41 {
        Some("Asia"@)
    } else if code == 0x4F {
        Some("World"@)
    } else {
        None
    }
}

pub fn nintendo_region_dat(region_code: u8) -> (r: Option<String>)
    ensures
        opt_view(r) == spec_nintendo_region_dat(region_code),
{
    let name: Option<&str> = match region_code {
        0x4A => Some("Japan"),
        0x45 => Some("USA"),
        0x50 => Some("Europe"),
        0x44 => Some("Germany"),
        0x46 => Some("France"),
        0x49 => Some("Italy"),
        0x53 => Some("Spain"),
        0x48 => Some("Netherlands"),
        0x4B => Some("Korea"),
        0x41 => Some("Asia"),
        0x4F => Some("World"),
        _ => None,
    };
    match name {
        Some(n) => Some(String::from_str(n)),
        None => None,
    }
}

/// Display name for a Nintendo region code byte.
pub open spec fn spec_nintendo_region_display(code: u8) -> Seq<char> {
    if code == 0x4A {
        "Japan"@
    } else if code == 0x45 {
        "North America"@
    } else if code == 0x50 {
        "Europe"@
    } else if code == 0x44 {
        "Germany"@
    } else if code == 0x46 {
        "France"@
    } else if code == 0x49 {
        "Italy"@
    } else if code == 0x53 {
        "Spain"@
    } else if code == 0x48 {
        "Netherlands"@
    } else if code == 0x4B {
        "Korea"@
    } else if code == 0x41 {
        "Asia"@
    } else if code == 0x4F {
        "Global"@
    } else {
        "Unknown"@
    }
}

pub fn nintendo_region_display(region_code: u8) -> (r: &'static str)
    ensures
        r@ == spec_nintendo_region_display(region_code),
{
    match region_code {
        0x4A => "Japan",
        0x45 => "North America",
        0x50 => "Europe",
        0x44 => "Germany",
        0x46 => "France",
        0x49 => "Italy",
        0x53 => "Spain",
        0x48 => "Netherlands",
        0x4B => "Korea",
        0x41 => "Asia",
        0x4F => "Global",
        _ => "Unknown",
    }
}

/// Repeating the first `size` bytes of `d` reproduces all of `d`.
pub open spec fn is_mirror(d: Seq<u8>, size: int) -> bool {
    forall|i: int| size <= i < d.len() ==> #[trigger] d[i] == d[i % size]
}

/// The smallest candidate size `size, size + block, ...` below `d.len()` that
/// mirrors `d`, or `d.len()` when none does.
pub open spec fn unique_size_from(d: Seq<u8>, block: int, size: int) -> int
    decreases d.len() - size,
{
    if block <= 0 || size <= 0 || size >= d.len() {
        d.len() as int
    } else if is_mirror(d, size) {
        size
    } else if size + block >= d.len() {
        d.len() as int
    } else {
        unique_size_from(d, block, size + block)
    }
}

/// Size of the smallest prefix (a multiple of `block` bytes) whose repetition
/// reproduces `d`; `d.len()` when there is none.
pub open spec fn spec_find_unique_size(d: Seq<u8>, block: int) -> int {
    if d.len() <= block {
        d.len() as int
    } else {
        unique_size_from(d, block, block)
    }
}

fn mirrors(data: &[u8], size: usize) -> (r: bool)
    requires
        0 < size,
    ensures
        r == is_mirror(data@, size as int),
{
    let mut i = size;
    while i < data.len()
        invariant
            0 < size <= i,
            forall|j: int| size <= j < i ==> #[trigger] data@[j] == data@[j % (size as int)],
        decreases data.len() - i,
    {
        assert(i % size < size) by (nonlinear_arith)
            requires
                size > 0,
        ;
        if data[i] != data[i % size] {
            return false;
        }
        i += 1;
    }
    true
}

/// Find the smallest prefix of the data that, when repeated, reproduces the
/// full data.  Checks every candidate size that is a multiple of `block_size`.
pub fn find_unique_size(data: &[u8], block_size: usize) -> (r: usize)
    requires
        block_size > 0 || data.len() == 0,
    ensures
        r == spec_find_unique_size(data@, block_size as int),
{
    let len = data.len();
    if len <= block_size {
        return len;
    }
    let mut size = block_size;
    while size < len
        invariant
            0 < block_size < len == data.len(),
            0 < size,
            unique_size_from(data@, block_size as int, size as int) == unique_size_from(
                data@,
                block_size as int,
                block_size as int,
            ),
        decreases len - size,
    {
        if mirrors(data, size) {
            return size;
        }
        if size > len - block_size {
            return len;
        }
        size += block_size;
    }
    len
}

/// Size of the unique data when the buffer is an overdump of repeated blocks.
pub open spec fn spec_detect_unique_size(d: Seq<u8>, block: int) -> Option<usize> {
    let u = spec_find_unique_size(d, block);
    if 0 <= u < d.len() {
        Some(u as usize)
    } else {
        None
    }
}

/// Detect if data contains repeated blocks indicating an overdump.  Returns
/// the size of the unique data if overdump is detected, `None` otherwise.
pub fn detect_unique_size(data: &[u8], min_block: usize) -> (r: Option<usize>)
    requires
        min_block > 0 || data.len() == 0,
    ensures
        r == spec_detect_unique_size(data@, min_block as int),
{
    let unique = find_unique_size(data, min_block);
    if unique < data.len() {
        Some(unique)
    } else {
        None
    }
}

/// Index just past the last byte of `d` that differs from `v` (0 when all equal `v`).
pub open spec fn pad_start(d: Seq<u8>, v: u8) -> int
    decreases d.len(),
{
    if d.len() == 0 {
        0
    } else if d.last() != v {
        d.len() as int
    } else {
        pad_start(d.drop_last(), v)
    }
}

/// Size of the data before a trailing run of `0x00` or `0xFF` padding, rounded
/// up to `block` bytes, when that padding is at least `block` bytes long.
pub open spec fn spec_detect_trailing_padding(d: Seq<u8>, block: int) -> Option<usize> {
    if d.len() <= block {
        None
    } else if d.last() != 0 && d.last() != 0xFF {
        None
    } else {
        let ps = pad_start(d, d.last());
        let sub = if block >= 1 { block - 1 } else { 0 };
        if ps + sub > usize::MAX || block == 0 {
            None
        } else {
            let unique = (ps + sub) / block * block;
            if unique < 0 || unique > usize::MAX || unique > d.len() {
                None
            } else if d.len() - unique >= block {
                Some(unique as usize)
            } else {
                None
            }
        }
    }
}

/// Detect if data has trailing padding of `0x00` or `0xFF` bytes.  Returns the
/// unique data size (rounded up to `block_size`) if trailing padding is at
/// least `block_size` bytes, `None` otherwise.
pub fn detect_trailing_padding(data: &[u8], block_size: usize) -> (r: Option<usize>)
    ensures
        r == spec_detect_trailing_padding(data@, block_size as int),
{
    if data.len() <= block_size {
        return None;
    }
    let last = data[data.len() - 1];
    if last != 0x00 && last != 0xFF {
        return None;
    }
    let mut end = data.len();
    proof {
        assert(data@.take(end as int) =~= data@);
    }
    while end > 0 && data[end - 1] == last
        invariant
            end <= data.len(),
            pad_start(data@.take(end as int), last) == pad_start(data@, last),
        decreases end,
    {
        assert(data@.take(end as int).drop_last() =~= data@.take(end - 1));
        end -= 1;
    }
    proof {
        if end > 0 {
            assert(data@.take(end as int).last() == data@[end - 1]);
        }
    }
    let pad_start_idx = end;
    let sub = block_size.saturating_sub(1);
    let rounded = match pad_start_idx.checked_add(sub) {
        Some(x) => x,
        None => return None,
    };
    if block_size == 0 {
        return None;
    }
    let q = rounded / block_size;
    let unique_size = match q.checked_mul(block_size) {
        Some(x) => x,
        None => return None,
    };
    proof {
        assert(q * block_size == (pad_start_idx + sub) / (block_size as int) * block_size);
    }
    let pad_len = match data.len().checked_sub(unique_size) {
        Some(x) => x,
        None => return None,
    };
    if pad_len >= block_size {
        Some(unique_size)
    } else {
        None
    }
}

/// A code field as text: its UTF-8 decoding when that is valid and non-empty.
pub open spec fn spec_utf8_serial(code: Seq<u8>) -> Option<Seq<char>> {
    if valid_utf8(code) {
        spec_non_empty(decode_utf8(code))
    } else {
        None
    }
}

/// `String::from_utf8(code)` when it succeeds and is non-empty.
pub fn utf8_serial(code: &[u8]) -> (r: Option<String>)
    ensures
        opt_view(r) == spec_utf8_serial(code@),
{
    match utf8_strict(code) {
        Some(chars) => {
            if chars.len() == 0 {
                None
            } else {
                Some(string_from_chars(&chars))
            }
        },
        None => None,
    }
}


/// Number of leading bytes before the first NUL (all of them when there is none).
pub open spec fn nul_prefix_len(b: Seq<u8>) -> nat
    decreases b.len(),
{
    if b.len() == 0 || b[0] == 0 {
        0
    } else {
        1 + nul_prefix_len(b.drop_first())
    }
}

/// A NUL-padded text field: the bytes before the first NUL, decoded lossily.
pub open spec fn spec_null_padded(b: Seq<u8>) -> Seq<char> {
    spec_utf8_lossy(b.take(nul_prefix_len(b) as int))
}

pub fn read_null_padded_string(bytes: &[u8]) -> (r: String)
    ensures
        r@ == spec_null_padded(bytes@),
{
    let mut n: usize = 0;
    assert(bytes@.skip(0) =~= bytes@);
    while n < bytes.len() && bytes[n] != 0
        invariant
            n <= bytes.len(),
            nul_prefix_len(bytes@) == n + nul_prefix_len(bytes@.skip(n as int)),
        decreases bytes.len() - n,
    {
        assert(bytes@.skip(n as int).drop_first() =~= bytes@.skip(n + 1));
        n += 1;
    }
    proof {
        if n < bytes.len() {
            assert(bytes@.skip(n as int)[0] == bytes@[n as int]);
        }
    }
    let head = &bytes[0..n];
    assert(head@ =~= bytes@.take(n as int));
    let chars = utf8_lossy(head);
    string_from_chars(&chars)
}


/// Cartridge header text: UTF-8 when valid, else Shift-JIS when that
/// decodes cleanly, else lossy UTF-8; then NFKC-normalised and trimmed of
/// spaces and NULs at both ends.
pub open spec fn spec_header_text(bytes: Seq<u8>) -> Seq<char> {
    let decoded = if valid_utf8(bytes) {
        decode_utf8(bytes)
    } else if !spec_shift_jis(bytes).1 {
        spec_shift_jis(bytes).0
    } else {
        spec_utf8_lossy(bytes)
    };
    trim_both(spec_nfkc(decoded), CharClass::NulOrSpace)
}

pub fn decode_header_text(buffer: &[u8]) -> (r: String)
    ensures
        r@ == spec_header_text(buffer@),
{
    let decoded = match utf8_strict(buffer) {
        Some(chars) => chars,
        None => {
            let (chars, errors) = shift_jis_decode(buffer);
            if !errors {
                chars
            } else {
                utf8_lossy(buffer)
            }
        },
    };
    let normalized = nfkc(&decoded);
    let trimmed = trim_both_chars(&normalized, CharClass::NulOrSpace);
    string_from_chars(&trimmed)
}


/// A 6502 zero-page store (STA/STX/STY, 0x84-0x86) to TIA register `reg`
/// occurs somewhere in the buffer.
pub open spec fn spec_has_tia_write(b: Seq<u8>, reg: u8) -> bool {
    exists|i: int| 0 <= i < b.len() - 1 && 0x84 <= #[trigger] b[i] <= 0x86 && b[i + 1] == reg
}

pub fn has_tia_write(b: &[u8], reg: u8) -> (r: bool)
    ensures
        r == spec_has_tia_write(b@, reg),
{
    if b.len() < 2 {
        return false;
    }
    let mut i: usize = 0;
    while i < b.len() - 1
        invariant
            b.len() >= 2,
            i <= b.len() - 1,
            forall|j: int| 0 <= j < i ==> !(0x84 <= #[trigger] b@[j] <= 0x86 && b@[j + 1] == reg),
        decreases b.len() - 1 - i,
    {
        if 0x84 <= b[i] && b[i] <= 0x86 && b[i + 1] == reg {
            return true;
        }
        i += 1;
    }
    false
}

proof fn lemma_diff_of_multiples(s: int, t: int, m: int)
    requires
        m > 0,
        s % m == 0,
        t % m == 0,
    ensures
        (s - t) % m == 0,
{
    vstd::arithmetic::div_mod::lemma_fundamental_div_mod(s, m);
    vstd::arithmetic::div_mod::lemma_fundamental_div_mod(t, m);
    let k = s / m - t / m;
    assert(s - t == m * k) by (nonlinear_arith)
        requires
            s == m * (s / m),
            t == m * (t / m),
            k == s / m - t / m,
    ;
    vstd::arithmetic::div_mod::lemma_mod_multiples_vanish(k, 0, m);
}

proof fn lemma_unique_size_from(d: Seq<u8>, block: int, size: int)
    requires
        block > 0,
        size >= block,
        size % block == 0,
        forall|s: int| block <= s < size && s % block == 0 ==> !#[trigger] is_mirror(d, s),
    ensures
        ({
            let u = unique_size_from(d, block, size);
            &&& u == d.len() ==> forall|s: int| block <= s < d.len() && s % block == 0 ==> !#[trigger] is_mirror(d, s)
            &&& u != d.len() ==> {
                &&& size <= u < d.len()
                &&& u % block == 0
                &&& is_mirror(d, u)
                &&& forall|s: int| block <= s < u && s % block == 0 ==> !#[trigger] is_mirror(d, s)
            }
        }),
    decreases d.len() - size,
{
    if size >= d.len() {
    } else if is_mirror(d, size) {
    } else if size + block >= d.len() {
        assert forall|s: int| block <= s < d.len() && s % block == 0 implies !#[trigger] is_mirror(d, s) by {
            if s > size {
                lemma_diff_of_multiples(s, size, block);
                assert(s - size >= block) by {
                    if s - size < block {
                        vstd::arithmetic::div_mod::lemma_small_mod((s - size) as nat, block as nat);
                    }
                }
            }
        }
    } else {
        assert((size + block) % block == 0) by (nonlinear_arith)
            requires
                size % block == 0,
                block > 0,
        ;
        assert forall|s: int| block <= s < size + block && s % block == 0 implies !#[trigger] is_mirror(d, s) by {
            if s > size {
                lemma_diff_of_multiples(s, size, block);
                assert(s - size >= block) by {
                    if s - size < block {
                        vstd::arithmetic::div_mod::lemma_small_mod((s - size) as nat, block as nat);
                    }
                }
            }
        }
        lemma_unique_size_from(d, block, size + block);
    }
}

/// An overdump size is the least multiple of the block size whose repetition
/// reproduces the data; when there is none below the data's length, no
/// overdump is reported.
pub proof fn law_unique_size_is_least_mirror(d: Seq<u8>, block: int)
    requires
        block > 0,
        d.len() <= usize::MAX,
    ensures
        match spec_detect_unique_size(d, block) {
            Some(u) => {
                &&& block <= u < d.len()
                &&& (u as int) % block == 0
                &&& is_mirror(d, u as int)
                &&& forall|s: int| block <= s < u && s % block == 0 ==> !#[trigger] is_mirror(d, s)
            },
            None => forall|s: int| block <= s < d.len() && s % block == 0 ==> !#[trigger] is_mirror(d, s),
        },
{
    if d.len() > block {
        vstd::arithmetic::div_mod::lemma_mod_self_0(block);
        lemma_unique_size_from(d, block, block);
    }
}

proof fn lemma_pad_start(d: Seq<u8>, v: u8)
    ensures
        0 <= pad_start(d, v) <= d.len(),
        forall|i: int| pad_start(d, v) <= i < d.len() ==> #[trigger] d[i] == v,
    decreases d.len(),
{
    if d.len() > 0 && d.last() == v {
        lemma_pad_start(d.drop_last(), v);
        assert forall|i: int| pad_start(d, v) <= i < d.len() implies #[trigger] d[i] == v by {
            if i < d.len() - 1 {
                assert(d[i] == d.drop_last()[i]);
            }
        }
    }
}

/// Trailing padding is reported only over whole blocks of one fill byte
/// (0x00 or 0xFF): every byte from the reported size on is that fill byte,
/// the size is a multiple of the block size, and at least one whole block of
/// padding follows it.
pub proof fn law_trailing_padding_is_fill(d: Seq<u8>, block: int)
    requires
        block > 0,
    ensures
        spec_detect_trailing_padding(d, block) matches Some(u) ==> {
            &&& (u as int) % block == 0
            &&& d.len() - u >= block
            &&& (d.last() == 0 || d.last() == 0xFF)
            &&& forall|i: int| u <= i < d.len() ==> #[trigger] d[i] == d.last()
        },
{
    if d.len() > block && (d.last() == 0 || d.last() == 0xFF) {
        lemma_pad_start(d, d.last());
        let ps = pad_start(d, d.last());
        let q = (ps + block - 1) / block;
        assert(q * block >= ps) by (nonlinear_arith)
            requires
                q == (ps + block - 1) / block,
                block > 0,
                ps >= 0,
        ;
        assert((q * block) % block == 0) by {
            vstd::arithmetic::div_mod::lemma_mod_multiples_basic(q, block);
        }
    }
}

} // verus!
