//! The four digests of a file and their hexadecimal text.

use crate::ext::{
    compute_md5, compute_sha1, compute_sha256, crc32, spec_crc32, spec_md5, spec_sha1, spec_sha256,
    string_from_chars,
};
use crate::text::{char_seqs, hex_chars, join_chars, join_with, spec_hex, spec_hex_byte};
use vstd::prelude::*;

verus! {

/// CRC-32, MD5, SHA-1 and SHA-256 of one piece of data.
#[derive(Clone, Copy, Debug, PartialEq, Eq)]
pub struct Hashes {
    pub crc32: u32,
    pub md5: [u8; 16],
    pub sha1: [u8; 20],
    pub sha256: [u8; 32],
}

/// The big-endian bytes of a 32-bit value.
pub open spec fn u32_be_bytes(v: u32) -> Seq<u8> {
    seq![
        (v / 0x1000000) as u8,
        ((v / 0x10000) % 256) as u8,
        ((v / 0x100) % 256) as u8,
        (v % 256) as u8,
    ]
}

fn u32_be_array(v: u32) -> (r: [u8; 4])
    ensures
        r@ == u32_be_bytes(v),
{
    let r: [u8; 4] = [(v / 0x1000000) as u8, ((v / 0x10000) % 256) as u8, ((v / 0x100) % 256) as u8, (v % 256) as u8];
    assert(r@ =~= u32_be_bytes(v));
    r
}

impl Hashes {
    /// The CRC-32 as eight upper-case hexadecimal digits.
    pub fn crc32_hex(&self) -> (r: String)
        ensures
            r@ == spec_hex(u32_be_bytes(self.crc32), true),
    {
        let b = u32_be_array(self.crc32);
        string_from_chars(&hex_chars(b.as_slice(), true))
    }

    /// The CRC-32 as eight lower-case hexadecimal digits.
    pub fn crc32_hex_lower(&self) -> (r: String)
        ensures
            r@ == spec_hex(u32_be_bytes(self.crc32), false),
    {
        let b = u32_be_array(self.crc32);
        string_from_chars(&hex_chars(b.as_slice(), false))
    }

    pub fn md5_hex_lower(&self) -> (r: String)
        ensures
            r@ == spec_hex(self.md5@, false),
    {
        hex_lower(self.md5.as_slice())
    }

    pub fn sha1_hex(&self) -> (r: String)
        ensures
            r@ == spec_hex(self.sha1@, true),
    {
        hex_upper(self.sha1.as_slice())
    }

    pub fn sha1_hex_lower(&self) -> (r: String)
        ensures
            r@ == spec_hex(self.sha1@, false),
    {
        hex_lower(self.sha1.as_slice())
    }

    pub fn sha256_hex_lower(&self) -> (r: String)
        ensures
            r@ == spec_hex(self.sha256@, false),
    {
        hex_lower(self.sha256.as_slice())
    }
}

/// All four digests of the data.
pub fn compute_hashes(data: &[u8]) -> (h: Hashes)
    ensures
        h.crc32 == spec_crc32(data@),
        h.md5@ == spec_md5(data@),
        h.sha1@ == spec_sha1(data@),
        h.sha256@ == spec_sha256(data@),
{
    Hashes {
        crc32: crc32(data),
        md5: compute_md5(data),
        sha1: compute_sha1(data),
        sha256: compute_sha256(data),
    }
}

/// Lower-case hexadecimal text, two digits per byte.
pub fn hex_lower(bytes: &[u8]) -> (r: String)
    ensures
        r@ == spec_hex(bytes@, false),
{
    string_from_chars(&hex_chars(bytes, false))
}

/// Upper-case hexadecimal text, two digits per byte.
pub fn hex_upper(bytes: &[u8]) -> (r: String)
    ensures
        r@ == spec_hex(bytes@, true),
{
    string_from_chars(&hex_chars(bytes, true))
}

/// The upper-case two-digit texts of the bytes, one per byte.
pub open spec fn hex_byte_texts(bytes: Seq<u8>) -> Seq<Seq<char>> {
    bytes.map_values(|b: u8| spec_hex_byte(b, true))
}

/// Upper-case hexadecimal bytes separated by single spaces.
pub fn hex_upper_spaced(bytes: &[u8]) -> (r: String)
    ensures
        r@ == join_with(hex_byte_texts(bytes@), " "@),
{
    let mut parts: Vec<Vec<char>> = Vec::new();
    let mut i: usize = 0;
    while i < bytes.len()
        invariant
            i <= bytes.len(),
            char_seqs(parts@) == hex_byte_texts(bytes@.take(i as int)),
        decreases bytes.len() - i,
    {
        let mut h: Vec<char> = Vec::new();
        crate::text::push_hex_byte(&mut h, bytes[i], true);
        assert(h@ =~= spec_hex_byte(bytes@[i as int], true));
        let ghost prev = parts@;
        parts.push(h);
        i += 1;
        proof {
            let want = hex_byte_texts(bytes@.take(i as int));
            assert(char_seqs(prev).len() == prev.len());
            assert(prev.len() == i - 1);
            assert(want.len() == i);
            assert forall|j: int| 0 <= j < parts@.len() implies #[trigger] char_seqs(parts@)[j]
                == want[j] by {
                if j < prev.len() {
                    assert(parts@[j] == prev[j]);
                    assert(char_seqs(prev)[j] == hex_byte_texts(bytes@.take(i - 1))[j]);
                } else {
                    assert(bytes@.take(i as int)[j] == bytes@[i - 1]);
                }
            }
            assert(char_seqs(parts@) =~= want);
        }
    }
    assert(bytes@.take(i as int) =~= bytes@);
    string_from_chars(&join_chars(&parts, " "))
}

/// A SHA-1 digest as upper-case hexadecimal text.
pub fn format_sha1(hash: &[u8; 20]) -> (r: String)
    ensures
        r@ == spec_hex(hash@, true),
{
    hex_upper(hash.as_slice())
}

} // verus!
