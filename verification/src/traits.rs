//! Shared result types and the interfaces every detected ROM or disc offers.

use vstd::prelude::*;

verus! {

/// Lightweight typed parse errors for ROM/disc detection.
#[derive(Debug, Clone, Copy, PartialEq, Eq, Structural)]
pub enum ParseError {
    /// The input buffer is smaller than the minimum required size.
    BufferTooSmall,
    /// Expected magic bytes or signature not found.
    MagicNotFound,
    /// Header or metadata is present but malformed or inconsistent.
    InvalidHeader,
}

impl ParseError {
    /// Human-readable description of the error.
    pub fn message(&self) -> (r: &'static str)
        ensures
            r@ == match *self {
                ParseError::BufferTooSmall => "buffer too small"@,
                ParseError::MagicNotFound => "magic bytes not found"@,
                ParseError::InvalidHeader => "invalid header"@,
            },
    {
        match self {
            ParseError::BufferTooSmall => "buffer too small",
            ParseError::MagicNotFound => "magic bytes not found",
            ParseError::InvalidHeader => "invalid header",
        }
    }
}

/// The characters of an optional string.
pub open spec fn opt_view(o: Option<String>) -> Option<Seq<char>> {
    match o {
        Some(s) => Some(s@),
        None => None,
    }
}

/// Metadata extracted for No-Intro/Logiqx DAT output.  All fields are
/// optional; systems that do not expose a piece of information leave it `None`.
pub struct DatMeta {
    /// Raw title from the ROM/disc header (used as `<game name="">`).
    pub title: Option<String>,
    /// Canonical No-Intro region string, e.g. "USA", "Japan", "Europe", "World".
    pub region: Option<String>,
    /// Version qualifier, e.g. "Rev 1".
    pub version: Option<String>,
    /// Release date (used in `<release date="">`).
    pub date: Option<String>,
    /// Publisher / manufacturer string (used in `<manufacturer>`).
    pub manufacturer: Option<String>,
    /// Product / game code (used in `<rom serial="">`).
    pub serial: Option<String>,
    /// Short machine identifier used as `<machine name="">`.
    pub machine_id: Option<String>,
}

/// The views of all fields of a `DatMeta`, in declaration order.
pub open spec fn meta_view(m: DatMeta) -> (
    Option<Seq<char>>,
    Option<Seq<char>>,
    Option<Seq<char>>,
    Option<Seq<char>>,
    Option<Seq<char>>,
    Option<Seq<char>>,
    Option<Seq<char>>,
) {
    (
        opt_view(m.title),
        opt_view(m.region),
        opt_view(m.version),
        opt_view(m.date),
        opt_view(m.manufacturer),
        opt_view(m.serial),
        opt_view(m.machine_id),
    )
}

/// True when every field of the metadata is absent.
pub open spec fn meta_is_empty(m: DatMeta) -> bool {
    meta_view(m) == (
        None::<Seq<char>>,
        None::<Seq<char>>,
        None::<Seq<char>>,
        None::<Seq<char>>,
        None::<Seq<char>>,
        None::<Seq<char>>,
        None::<Seq<char>>,
    )
}

impl DatMeta {
    /// Metadata with every field absent.
    pub fn empty() -> (r: DatMeta)
        ensures
            meta_is_empty(r),
    {
        DatMeta {
            title: None,
            region: None,
            version: None,
            date: None,
            manufacturer: None,
            serial: None,
            machine_id: None,
        }
    }
}

impl Default for DatMeta {
    fn default() -> (r: DatMeta)
        ensures
            meta_is_empty(r),
    {
        DatMeta::empty()
    }
}

/// A detected ROM or disc image.
pub trait RomInfo {
    /// Name of the console the image belongs to.
    fn console(&self) -> &'static str;

    /// Catalogue metadata for DAT output.
    fn dat_meta(&self) -> DatMeta;
}

/// Images that carry the SHA-1 of their data (excluding any file headers).
pub trait RomHash {
    fn sha1(&self) -> [u8; 20];
}

/// Images with a title stored in their header.
pub trait Title {
    fn title(&self) -> &str;
}

/// Images whose header stores a checksum that can be compared against one
/// calculated from the data.
pub trait StoredChecksum<T> {
    fn stored_checksum(&self) -> T;

    fn calculated_checksum(&self) -> T;

    fn checksum_matches(&self) -> bool;
}

} // verus!
