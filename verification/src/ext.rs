//! The calls this library makes into outside crates and into the parts of
//! std that vstd does not specify.  Each item here is trusted: its contract
//! is believed, not proved.

use sha1::Digest;
use unicode_normalization::UnicodeNormalization;
use vstd::prelude::*;
use vstd::utf8::*;

verus! {

/// The SHA-1 digest (20 bytes) of a byte sequence, as the `sha1` crate computes it.
pub uninterp spec fn spec_sha1(data: Seq<u8>) -> Seq<u8>;

/// The SHA-256 digest (32 bytes) of a byte sequence, as the `sha2` crate computes it.
pub uninterp spec fn spec_sha256(data: Seq<u8>) -> Seq<u8>;

/// The MD5 digest (16 bytes) of a byte sequence, as the `md-5` crate computes it.
pub uninterp spec fn spec_md5(data: Seq<u8>) -> Seq<u8>;

/// `k` steps of a reflected 32-bit CRC register: shift right, folding in the
/// reflected polynomial when the bit shifted out was set.
pub open spec fn crc32_shift(c: u32, poly: u32, k: nat) -> u32
    decreases k,
{
    if k == 0 {
        c
    } else {
        crc32_shift(if c & 1 == 1 { (c >> 1) ^ poly } else { c >> 1 }, poly, (k - 1) as nat)
    }
}

/// `k` steps of a reflected 16-bit CRC register.
pub open spec fn crc16_shift(c: u16, poly: u16, k: nat) -> u16
    decreases k,
{
    if k == 0 {
        c
    } else {
        crc16_shift(if c & 1 == 1 { (c >> 1) ^ poly } else { c >> 1 }, poly, (k - 1) as nat)
    }
}

/// The CRC-32/ISO-HDLC register after the bytes of `data`: initial value
/// 0xFFFFFFFF, input reflected, polynomial 0x04C11DB7 (0xEDB88320 reflected).
pub open spec fn crc32_register(data: Seq<u8>) -> u32
    decreases data.len(),
{
    if data.len() == 0 {
        0xFFFF_FFFFu32
    } else {
        crc32_shift(crc32_register(data.drop_last()) ^ (data.last() as u32), 0xEDB8_8320u32, 8)
    }
}

/// The CRC-32/ISO-HDLC checksum of a byte sequence: the register, output
/// reflected, XORed with 0xFFFFFFFF.
#[verifier::opaque]
pub open spec fn spec_crc32(data: Seq<u8>) -> u32 {
    crc32_register(data) ^ 0xFFFF_FFFFu32
}

/// The CRC-16/MODBUS checksum of a byte sequence: initial value 0xFFFF,
/// input and output reflected, polynomial 0x8005 (0xA001 reflected), no
/// final XOR.
#[verifier::opaque]
pub open spec fn spec_crc16_modbus(data: Seq<u8>) -> u16
    decreases data.len(),
{
    if data.len() == 0 {
        0xFFFFu16
    } else {
        crc16_shift(spec_crc16_modbus(data.drop_last()) ^ (data.last() as u16), 0xA001u16, 8)
    }
}

/// The characters that `String::from_utf8_lossy` yields for a byte sequence.
pub uninterp spec fn spec_utf8_lossy(bytes: Seq<u8>) -> Seq<char>;

/// The characters that `encoding_rs::SHIFT_JIS.decode` yields for a byte
/// sequence, and whether it reported malformed input.
pub uninterp spec fn spec_shift_jis(bytes: Seq<u8>) -> (Seq<char>, bool);

/// The characters of the NFKC normal form of a character sequence, as the
/// `unicode-normalization` crate computes it.
pub uninterp spec fn spec_nfkc(chars: Seq<char>) -> Seq<char>;

/// The characters of `str::to_uppercase` applied to a character sequence.
pub uninterp spec fn spec_to_uppercase(chars: Seq<char>) -> Seq<char>;

/// Calls `sha1::Sha1` (new, update, finalize) on the buffer.  Claims only
/// that the digest is the named SHA-1 of the input.
#[verifier::external_body]
pub(crate) fn compute_sha1(buffer: &[u8]) -> (digest: [u8; 20])
    ensures
        digest@ == spec_sha1(buffer@),
{
    let mut hasher = sha1::Sha1::new();
    hasher.update(buffer);
    hasher.finalize().into()
}

/// Calls `sha2::Sha256` (new, update, finalize) on the buffer.  Claims only
/// that the digest is the named SHA-256 of the input.
#[verifier::external_body]
pub(crate) fn compute_sha256(buffer: &[u8]) -> (digest: [u8; 32])
    ensures
        digest@ == spec_sha256(buffer@),
{
    let mut hasher = sha2::Sha256::new();
    hasher.update(buffer);
    hasher.finalize().into()
}

/// Calls `md5::Md5` (new, update, finalize) from the `md-5` crate on the
/// buffer.  Claims only that the digest is the named MD5 of the input.
#[verifier::external_body]
pub(crate) fn compute_md5(buffer: &[u8]) -> (digest: [u8; 16])
    ensures
        digest@ == spec_md5(buffer@),
{
    let mut hasher = md5::Md5::new();
    hasher.update(buffer);
    hasher.finalize().into()
}

/// Calls `crc::Crc::<u32>::new(&CRC_32_ISO_HDLC).checksum` on the buffer.
/// Claims that the result is the CRC-32/ISO-HDLC of the input, with the
/// parameters the crate's catalogue gives that algorithm (width 32, poly
/// 0x04C11DB7, init 0xFFFFFFFF, reflected in and out, xorout 0xFFFFFFFF).
#[verifier::external_body]
pub(crate) fn crc32(buffer: &[u8]) -> (checksum: u32)
    ensures
        checksum == spec_crc32(buffer@),
{
    crc::Crc::<u32>::new(&crc::CRC_32_ISO_HDLC).checksum(buffer)
}

/// Calls `crc::Crc::<u16>::new(&CRC_16_MODBUS).checksum` on the buffer.
/// Claims that the result is the CRC-16/MODBUS of the input, with the
/// parameters the crate's catalogue gives that algorithm (width 16, poly
/// 0x8005, init 0xFFFF, reflected in and out, xorout 0).
#[verifier::external_body]
pub(crate) fn crc16_modbus(buffer: &[u8]) -> (checksum: u16)
    ensures
        checksum == spec_crc16_modbus(buffer@),
{
    crc::Crc::<u16>::new(&crc::CRC_16_MODBUS).checksum(buffer)
}

/// Calls `String::from_utf8_lossy` and hands back its characters.  Claims
/// that they are the named lossy decoding, and, as std documents, that valid
/// UTF-8 input decodes to exactly the characters it encodes.
#[verifier::external_body]
pub(crate) fn utf8_lossy(bytes: &[u8]) -> (chars: Vec<char>)
    ensures
        chars@ == spec_utf8_lossy(bytes@),
        valid_utf8(bytes@) ==> chars@ == decode_utf8(bytes@),
{
    String::from_utf8_lossy(bytes).chars().collect()
}

/// Calls `std::str::from_utf8`.  Claims, as std documents, that it succeeds
/// exactly on valid UTF-8 and then yields the encoded characters.
#[verifier::external_body]
pub(crate) fn utf8_strict(bytes: &[u8]) -> (chars: Option<Vec<char>>)
    ensures
        chars is Some <==> valid_utf8(bytes@),
        chars matches Some(c) ==> c@ == decode_utf8(bytes@),
{
    match std::str::from_utf8(bytes) {
        Ok(s) => Some(s.chars().collect()),
        Err(_) => None,
    }
}

/// Calls `encoding_rs::SHIFT_JIS.decode`.  Claims only that the decoded
/// characters and the error flag are the named result for the input.
#[verifier::external_body]
pub(crate) fn shift_jis_decode(bytes: &[u8]) -> (decoded: (Vec<char>, bool))
    ensures
        (decoded.0@, decoded.1) == spec_shift_jis(bytes@),
{
    let (text, _encoding, had_errors) = encoding_rs::SHIFT_JIS.decode(bytes);
    (text.chars().collect(), had_errors)
}

/// Calls `UnicodeNormalization::nfkc` on the characters.  Claims only that
/// the result is the named NFKC form of the input.
#[verifier::external_body]
pub(crate) fn nfkc(chars: &Vec<char>) -> (normalized: Vec<char>)
    ensures
        normalized@ == spec_nfkc(chars@),
{
    let s: String = chars.iter().collect();
    s.nfkc().collect()
}

/// Calls `str::to_uppercase` on the characters.  Claims only that the result
/// is the named upper-case form of the input.
#[verifier::external_body]
pub(crate) fn to_uppercase(chars: &Vec<char>) -> (upper: Vec<char>)
    ensures
        upper@ == spec_to_uppercase(chars@),
{
    let s: String = chars.iter().collect();
    s.to_uppercase().chars().collect()
}

/// Collects characters into a `String` (`FromIterator<char>`): the string
/// holds exactly those characters.
#[verifier::external_body]
pub(crate) fn string_from_chars(chars: &Vec<char>) -> (s: String)
    ensures
        s@ == chars@,
{
    chars.iter().collect()
}

} // verus!
