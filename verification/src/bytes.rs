//! Fixed-width integer reads and byte-pattern checks on byte buffers.

use vstd::prelude::*;

verus! {

/// Little-endian 16-bit value stored at `off`.
pub open spec fn spec_u16_le(b: Seq<u8>, off: int) -> u16 {
    (b[off] as int + b[off + 1] as int * 256) as u16
}

/// Big-endian 16-bit value stored at `off`.
pub open spec fn spec_u16_be(b: Seq<u8>, off: int) -> u16 {
    (b[off] as int * 256 + b[off + 1] as int) as u16
}

/// Big-endian 32-bit value stored at `off`.
pub open spec fn spec_u32_be(b: Seq<u8>, off: int) -> u32 {
    (b[off] as int * 0x1000000 + b[off + 1] as int * 0x10000 + b[off + 2] as int * 0x100
        + b[off + 3] as int) as u32
}

/// Little-endian 32-bit value stored at `off`.
pub open spec fn spec_u32_le(b: Seq<u8>, off: int) -> u32 {
    (b[off + 3] as int * 0x1000000 + b[off + 2] as int * 0x10000 + b[off + 1] as int * 0x100
        + b[off] as int) as u32
}

/// True when `pat` occurs in `b` starting at `off`.
pub open spec fn spec_matches_at(b: Seq<u8>, off: int, pat: Seq<u8>) -> bool {
    0 <= off && off + pat.len() <= b.len() && b.subrange(off, off + pat.len()) == pat
}

pub fn read_u16_le(b: &[u8], off: usize) -> (r: u16)
    requires
        off + 2 <= b.len(),
    ensures
        r == spec_u16_le(b@, off as int),
{
    (b[off] as u16) + (b[off + 1] as u16) * 256
}

pub fn read_u16_be(b: &[u8], off: usize) -> (r: u16)
    requires
        off + 2 <= b.len(),
    ensures
        r == spec_u16_be(b@, off as int),
{
    (b[off] as u16) * 256 + (b[off + 1] as u16)
}

pub fn read_u32_be(b: &[u8], off: usize) -> (r: u32)
    requires
        off + 4 <= b.len(),
    ensures
        r == spec_u32_be(b@, off as int),
{
    (b[off] as u32) * 0x1000000 + (b[off + 1] as u32) * 0x10000 + (b[off + 2] as u32) * 0x100
        + (b[off + 3] as u32)
}

pub fn read_u32_le(b: &[u8], off: usize) -> (r: u32)
    requires
        off + 4 <= b.len(),
    ensures
        r == spec_u32_le(b@, off as int),
{
    (b[off + 3] as u32) * 0x1000000 + (b[off + 2] as u32) * 0x10000 + (b[off + 1] as u32)
        * 0x100 + (b[off] as u32)
}

/// Whether `pat` occurs in `b` at `off` (false when it would run past the end).
pub fn matches_at(b: &[u8], off: usize, pat: &[u8]) -> (r: bool)
    ensures
        r == spec_matches_at(b@, off as int, pat@),
{
    if off > b.len() || pat.len() > b.len() - off {
        return false;
    }
    let mut i: usize = 0;
    while i < pat.len()
        invariant
            off + pat@.len() <= b.len(),
            i <= pat@.len(),
            forall|j: int| 0 <= j < i ==> b@[off + j] == pat@[j],
        decreases pat@.len() - i,
    {
        if b[off + i] != pat[i] {
            assert(b@.subrange(off as int, off + pat@.len())[i as int] != pat@[i as int]);
            return false;
        }
        i += 1;
    }
    assert(b@.subrange(off as int, off + pat@.len()) =~= pat@);
    true
}

/// Copies `len` bytes starting at `off`.
pub fn copy_range(b: &[u8], off: usize, len: usize) -> (r: Vec<u8>)
    requires
        off + len <= b.len(),
    ensures
        r@ == b@.subrange(off as int, off + len),
{
    let mut v: Vec<u8> = Vec::new();
    let mut i: usize = 0;
    while i < len
        invariant
            off + len <= b.len(),
            i <= len,
            v@ == b@.subrange(off as int, off + i),
        decreases len - i,
    {
        v.push(b[off + i]);
        i += 1;
        assert(v@ =~= b@.subrange(off as int, off + i));
    }
    v
}

/// Whether every byte in `b[lo..hi]` equals `value`.
pub open spec fn spec_all_eq(b: Seq<u8>, lo: int, hi: int, value: u8) -> bool {
    forall|i: int| lo <= i < hi ==> b[i] == value
}

pub fn all_eq(b: &[u8], lo: usize, hi: usize, value: u8) -> (r: bool)
    requires
        lo <= hi <= b.len(),
    ensures
        r == spec_all_eq(b@, lo as int, hi as int, value),
{
    let mut i = lo;
    while i < hi
        invariant
            lo <= i <= hi <= b.len(),
            spec_all_eq(b@, lo as int, i as int, value),
        decreases hi - i,
    {
        if b[i] != value {
            return false;
        }
        i += 1;
    }
    true
}

} // verus!
