//! Famicom Disk System images (`.fds`, with or without the fwNES header).

use crate::bytes::{matches_at, read_u16_le, spec_matches_at, spec_u16_le};
use crate::ext::{compute_sha1, crc32, spec_crc32, spec_sha1, spec_utf8_lossy, utf8_lossy};
use crate::report::{
    dec_padded, dec_zero_padded, hex_padded, left_padded, push_dec, push_dec_padded, push_dec_zero_padded,
    push_hex_padded, push_left_padded, push_sha1, sha1_text,
};
use crate::text::{append_chars, append_str, hex_chars, spec_decimal, spec_hex, trim_end, trim_end_chars, CharClass};
use crate::traits::{meta_is_empty, DatMeta, ParseError, RomHash, RomInfo};
use vstd::prelude::*;

verus! {

/// Bytes in one disk side of an `.fds` dump.
pub const DISK_SIDE_SIZE: usize = 65500;

/// Bytes of the optional fwNES header.
pub const FWNES_HEADER_BYTES: usize = 16;

/// Block 1 (0x38 bytes) plus block 2 (2 bytes): the least a side must hold.
pub const SIDE_MIN_PARSE_BYTES: usize = 0x3A;

/// Bytes of a block 3 file header.
pub const BLOCK3_BYTES: usize = 16;

/// `*NINTENDO-HVC*`, the verification string of a disk info block.
pub open spec fn spec_nintendo_hvc() -> Seq<u8> {
    seq![0x2Au8, 0x4E, 0x49, 0x4E, 0x54, 0x45, 0x4E, 0x44, 0x4F, 0x2D, 0x48, 0x56, 0x43, 0x2A]
}

fn nintendo_hvc() -> (r: [u8; 14])
    ensures
        r@ == spec_nintendo_hvc(),
{
    let r: [u8; 14] = [0x2A, 0x4E, 0x49, 0x4E, 0x54, 0x45, 0x4E, 0x44, 0x4F, 0x2D, 0x48, 0x56, 0x43, 0x2A];
    assert(r@ =~= spec_nintendo_hvc());
    r
}

/// `FDS\x1A`, the magic of the fwNES header.
pub open spec fn spec_fwnes_magic() -> Seq<u8> {
    seq![0x46u8, 0x44, 0x53, 0x1A]
}

fn fwnes_magic() -> (r: [u8; 4])
    ensures
        r@ == spec_fwnes_magic(),
{
    let r: [u8; 4] = [0x46, 0x44, 0x53, 0x1A];
    assert(r@ =~= spec_fwnes_magic());
    r
}

/// FDS block 3 file type.
#[derive(Clone, Copy, Debug, PartialEq, Eq, Structural)]
pub enum FdsFileKind {
    /// Program data loaded to CPU address space.
    Program,
    /// Character/tile data loaded to PPU address space.
    Character,
    /// Nametable data loaded to PPU nametable address space.
    Nametable,
    /// Unrecognised file type byte.
    Unknown(u8),
}

pub open spec fn spec_file_kind(b: u8) -> FdsFileKind {
    if b == 0 {
        FdsFileKind::Program
    } else if b == 1 {
        FdsFileKind::Character
    } else if b == 2 {
        FdsFileKind::Nametable
    } else {
        FdsFileKind::Unknown(b)
    }
}

impl FdsFileKind {
    pub fn from_byte(b: u8) -> (r: FdsFileKind)
        ensures
            r == spec_file_kind(b),
    {
        match b {
            0 => FdsFileKind::Program,
            1 => FdsFileKind::Character,
            2 => FdsFileKind::Nametable,
            _ => FdsFileKind::Unknown(b),
        }
    }

    /// True when the file contains program data (type 0).
    pub fn is_program(&self) -> (r: bool)
        ensures
            r == (*self == FdsFileKind::Program),
    {
        match self {
            FdsFileKind::Program => true,
            _ => false,
        }
    }

    /// True when the file contains character/tile data (type 1).
    pub fn is_character(&self) -> (r: bool)
        ensures
            r == (*self == FdsFileKind::Character),
    {
        match self {
            FdsFileKind::Character => true,
            _ => false,
        }
    }
}

/// FDS disk info game type byte.
#[derive(Clone, Copy, Debug, PartialEq, Eq, Structural)]
pub enum FdsGameType {
    /// Normal retail disk (`0x20`).
    Normal,
    /// Event/promotional disk (`0x45`).
    Event,
    /// Reduced-price disk sold via advertising (`0x52`).
    Reduction,
    Unknown(u8),
}

pub open spec fn spec_game_type(b: u8) -> FdsGameType {
    if b == 0x20 {
        FdsGameType::Normal
    } else if b == 0x45 {
        FdsGameType::Event
    } else if b == 0x52 {
        FdsGameType::Reduction
    } else {
        FdsGameType::Unknown(b)
    }
}

impl FdsGameType {
    pub fn from_byte(b: u8) -> (r: FdsGameType)
        ensures
            r == spec_game_type(b),
    {
        match b {
            0x20 => FdsGameType::Normal,
            0x45 => FdsGameType::Event,
            0x52 => FdsGameType::Reduction,
            _ => FdsGameType::Unknown(b),
        }
    }
}

/// FDS disk info country code.
#[derive(Clone, Copy, Debug, PartialEq, Eq, Structural)]
pub enum FdsCountry {
    /// Japan (`0x49`).
    Japan,
    Unknown(u8),
}

pub open spec fn spec_country(b: u8) -> FdsCountry {
    if b == 0x49 {
        FdsCountry::Japan
    } else {
        FdsCountry::Unknown(b)
    }
}

impl FdsCountry {
    pub fn from_byte(b: u8) -> (r: FdsCountry)
        ensures
            r == spec_country(b),
    {
        match b {
            0x49 => FdsCountry::Japan,
            _ => FdsCountry::Unknown(b),
        }
    }
}

/// FDS disk side label.
#[derive(Clone, Copy, Debug, PartialEq, Eq, Structural)]
pub enum FdsDiskSide {
    A,
    B,
    Unknown(u8),
}

pub open spec fn spec_disk_side(b: u8) -> FdsDiskSide {
    if b == 0 {
        FdsDiskSide::A
    } else if b == 1 {
        FdsDiskSide::B
    } else {
        FdsDiskSide::Unknown(b)
    }
}

impl FdsDiskSide {
    pub fn from_byte(b: u8) -> (r: FdsDiskSide)
        ensures
            r == spec_disk_side(b),
    {
        match b {
            0 => FdsDiskSide::A,
            1 => FdsDiskSide::B,
            _ => FdsDiskSide::Unknown(b),
        }
    }
}

/// The value of a packed BCD byte, each nibble read as a decimal digit.
pub open spec fn spec_bcd(b: u8) -> u8 {
    ((b / 16) * 10 + b % 16) as u8
}

pub fn bcd_to_u8(bcd: u8) -> (r: u8)
    ensures
        r == spec_bcd(bcd),
        r as int == (bcd / 16) * 10 + bcd % 16,
{
    (bcd / 16) * 10 + bcd % 16
}

/// The Gregorian year of an FDS year byte: `0x80`-`0x99` are 19xx,
/// `0x60`-`0x7F` count from Shōwa (1925 + value), lower values from
/// Heisei (1988 + value).
pub open spec fn spec_fds_year(b: u8) -> u16 {
    let v = spec_bcd(b) as int;
    if b >= 0x80 {
        (1900 + v) as u16
    } else if b >= 0x60 {
        (1925 + v) as u16
    } else {
        (1988 + v) as u16
    }
}

pub fn parse_fds_year(bcd_byte: u8) -> (r: u16)
    ensures
        r == spec_fds_year(bcd_byte),
{
    let val = bcd_to_u8(bcd_byte) as u16;
    if bcd_byte >= 0x80 {
        1900 + val
    } else if bcd_byte >= 0x60 {
        1925 + val
    } else {
        1988 + val
    }
}

/// A BCD-encoded date as stored in FDS disk info blocks: year, month, day.
/// All zeros means no date was recorded.
#[derive(Clone, Copy, Debug, PartialEq, Eq)]
pub struct FdsDate {
    pub raw: [u8; 3],
}

impl FdsDate {
    /// A date from the three raw BCD bytes `[year, month, day]`.
    pub fn from_bytes(bytes: [u8; 3]) -> (r: FdsDate)
        ensures
            r.raw@ == bytes@,
    {
        FdsDate { raw: bytes }
    }

    /// True when all three bytes are zero (no date recorded).
    pub fn is_empty(&self) -> (r: bool)
        ensures
            r == (self.raw@[0] == 0 && self.raw@[1] == 0 && self.raw@[2] == 0),
    {
        self.raw[0] == 0 && self.raw[1] == 0 && self.raw[2] == 0
    }

    /// The Gregorian year of the BCD year byte.
    pub fn year(&self) -> (r: u16)
        ensures
            r == spec_fds_year(self.raw@[0]),
    {
        parse_fds_year(self.raw[0])
    }

    /// The BCD month byte decoded (1-12, or 0 when absent).
    pub fn month(&self) -> (r: u8)
        ensures
            r == spec_bcd(self.raw@[1]),
    {
        bcd_to_u8(self.raw[1])
    }

    /// The BCD day byte decoded (1-31, or 0 when absent).
    pub fn day(&self) -> (r: u8)
        ensures
            r == spec_bcd(self.raw@[2]),
    {
        bcd_to_u8(self.raw[2])
    }
}

/// One file of a disk side: its block 3 header and the digests of its data.
pub struct FdsFileEntry {
    pub file_number: u8,
    pub file_name: [u8; 8],
    pub file_kind: FdsFileKind,
    pub file_size: u16,
    pub crc32: u32,
    pub sha1: [u8; 20],
}

/// The disk info block of one side and its files.
pub struct FdsSideInfo {
    pub licensee_code: u8,
    pub game_name: [u8; 3],
    pub game_type: FdsGameType,
    pub game_version: u8,
    pub side: FdsDiskSide,
    pub disk_number: u8,
    pub manufacturing_date: FdsDate,
    pub country: FdsCountry,
    pub rewrite_date: FdsDate,
    pub disk_rewrite_count: u8,
    pub disk_version: u8,
    pub file_count: u8,
    pub files: Vec<FdsFileEntry>,
}

/// A parsed FDS image.
pub struct FdsRomInfo {
    pub has_header: bool,
    pub sides: Vec<FdsSideInfo>,
    pub prg_size: u32,
    pub chr_size: u32,
    pub prg_crc32: u32,
    pub chr_crc32: Option<u32>,
    pub rom_sha1: [u8; 20],
}

// ---------------------------------------------------------------------------
// The layout of a disk, as spec functions
// ---------------------------------------------------------------------------

/// The buffer starts with the fwNES header magic.
pub open spec fn fds_has_header(b: Seq<u8>) -> bool {
    spec_matches_at(b, 0, spec_fwnes_magic())
}

/// The disk data: the buffer without its fwNES header.
pub open spec fn fds_disk(b: Seq<u8>) -> Seq<u8> {
    if fds_has_header(b) {
        b.skip(16)
    } else {
        b
    }
}

/// A disk info block (type 1 and the verification string) starts at `off`.
pub open spec fn fds_block1_ok(d: Seq<u8>, off: int) -> bool {
    0 <= off < d.len() && d[off] == 1 && spec_matches_at(d, off + 1, spec_nintendo_hvc())
}

/// Side `k` of the disk is present: room for blocks 1 and 2, and a valid block 1.
pub open spec fn fds_side_ok(d: Seq<u8>, k: nat) -> bool {
    k * 65500 + 0x3A <= d.len() && fds_block1_ok(d, (k * 65500) as int)
}

/// The number of consecutive valid sides from side `k` on.
pub open spec fn fds_side_count_from(d: Seq<u8>, k: nat) -> nat
    decreases d.len() + 65500 - k * 65500,
{
    if fds_side_ok(d, k) {
        1 + fds_side_count_from(d, k + 1)
    } else {
        0
    }
}

/// The number of disk sides parsed.
pub open spec fn fds_side_count(d: Seq<u8>) -> nat {
    fds_side_count_from(d, 0)
}

/// The bytes of side `k`, from its start to the end of the disk.
pub open spec fn fds_side(d: Seq<u8>, k: nat) -> Seq<u8> {
    d.skip((k * 65500) as int)
}

/// Where the file table of a side ends.
pub open spec fn fds_side_end(s: Seq<u8>) -> int {
    if s.len() < 65500 {
        s.len() as int
    } else {
        65500
    }
}

/// The file count of block 2, or 0 when block 2 is missing.
pub open spec fn fds_file_count(s: Seq<u8>) -> u8 {
    if s[0x38] == 2 {
        s[0x39]
    } else {
        0
    }
}

/// The size field of the block 3 header at `fo`.
pub open spec fn fds_file_size(s: Seq<u8>, fo: int) -> u16 {
    spec_u16_le(s, fo + 13)
}

/// A block 3 header and its block 4 data both fit before `end` at `fo`.
pub open spec fn fds_file_ok(s: Seq<u8>, end: int, fo: int) -> bool {
    &&& fo + 16 <= end
    &&& s[fo] == 3
    &&& fo + 17 + fds_file_size(s, fo) <= end
    &&& s[fo + 16] == 4
}

/// The offsets of the block 3 headers read from `fo` on, at most `count` of them.
pub open spec fn fds_file_offsets(s: Seq<u8>, end: int, fo: int, count: nat) -> Seq<int>
    decreases count,
{
    if count == 0 || !fds_file_ok(s, end, fo) {
        Seq::empty()
    } else {
        seq![fo] + fds_file_offsets(s, end, fo + 17 + fds_file_size(s, fo), (count - 1) as nat)
    }
}

/// The offsets of all files parsed on a side.
pub open spec fn fds_side_files(s: Seq<u8>) -> Seq<int> {
    fds_file_offsets(s, fds_side_end(s), 0x3A, fds_file_count(s) as nat)
}

/// The data bytes (block 4 payload) of the file whose header is at `fo`.
pub open spec fn fds_file_data(s: Seq<u8>, fo: int) -> Seq<u8> {
    s.subrange(fo + 17, fo + 17 + fds_file_size(s, fo))
}

/// The data of the files of kind byte `kind`, in order.
pub open spec fn fds_kind_data(s: Seq<u8>, offs: Seq<int>, kind: u8) -> Seq<u8>
    decreases offs.len(),
{
    if offs.len() == 0 {
        Seq::empty()
    } else {
        fds_kind_data(s, offs.drop_last(), kind) + if s[offs.last() + 15] == kind {
            fds_file_data(s, offs.last())
        } else {
            Seq::empty()
        }
    }
}

/// The data of the files of kind byte `kind` on the first `n` sides.
pub open spec fn fds_all_kind_data(d: Seq<u8>, n: nat, kind: u8) -> Seq<u8>
    decreases n,
{
    if n == 0 {
        Seq::empty()
    } else {
        let s = fds_side(d, (n - 1) as nat);
        fds_all_kind_data(d, (n - 1) as nat, kind) + fds_kind_data(s, fds_side_files(s), kind)
    }
}

/// A file entry holds what its header at `fo` says, and the digests of its data.
pub open spec fn fds_entry_matches(s: Seq<u8>, fo: int, e: FdsFileEntry) -> bool {
    &&& e.file_number == s[fo + 1]
    &&& e.file_name@ == s.subrange(fo + 3, fo + 11)
    &&& e.file_kind == spec_file_kind(s[fo + 15])
    &&& e.file_size == fds_file_size(s, fo)
    &&& e.crc32 == spec_crc32(fds_file_data(s, fo))
    &&& e.sha1@ == spec_sha1(fds_file_data(s, fo))
}

/// A side record holds the disk info block of side bytes `s` and its files.
pub open spec fn fds_side_matches(s: Seq<u8>, si: FdsSideInfo) -> bool {
    let offs = fds_side_files(s);
    &&& si.licensee_code == s[0x0F]
    &&& si.game_name@ == s.subrange(0x10, 0x13)
    &&& si.game_type == spec_game_type(s[0x13])
    &&& si.game_version == s[0x14]
    &&& si.side == spec_disk_side(s[0x15])
    &&& si.disk_number == s[0x16]
    &&& si.manufacturing_date.raw@ == s.subrange(0x1F, 0x22)
    &&& si.country == spec_country(s[0x22])
    &&& si.rewrite_date.raw@ == s.subrange(0x2C, 0x2F)
    &&& si.disk_rewrite_count == s[0x34]
    &&& si.disk_version == s[0x37]
    &&& si.file_count == fds_file_count(s)
    &&& si.files@.len() == offs.len()
    &&& forall|j: int| 0 <= j < offs.len() ==> fds_entry_matches(s, offs[j], #[trigger] si.files@[j])
}

/// The error a parse fails with, when it fails.
pub open spec fn fds_parse_error(b: Seq<u8>) -> Option<ParseError> {
    let d = fds_disk(b);
    if fds_has_header(b) && b.len() < 16 {
        Some(ParseError::BufferTooSmall)
    } else if d.len() < 0x3A {
        Some(ParseError::BufferTooSmall)
    } else if !fds_block1_ok(d, 0) {
        Some(ParseError::MagicNotFound)
    } else {
        None
    }
}

/// What a successful parse reads from the buffer.
pub open spec fn fds_info_matches(b: Seq<u8>, info: FdsRomInfo) -> bool {
    let d = fds_disk(b);
    let n = fds_side_count(d);
    let prg = fds_all_kind_data(d, n, 0);
    let chr = fds_all_kind_data(d, n, 1);
    &&& info.has_header == fds_has_header(b)
    &&& info.sides@.len() == n
    &&& forall|k: int| 0 <= k < n ==> fds_side_matches(fds_side(d, k as nat), #[trigger] info.sides@[k])
    &&& info.prg_size == prg.len() as u32
    &&& info.chr_size == chr.len() as u32
    &&& info.prg_crc32 == spec_crc32(prg)
    &&& info.chr_crc32 == if chr.len() == 0 {
        None
    } else {
        Some(spec_crc32(chr))
    }
    &&& info.rom_sha1@ == spec_sha1(d)
}

// ---------------------------------------------------------------------------
// Parsing
// ---------------------------------------------------------------------------

fn extend_bytes(dst: &mut Vec<u8>, src: &[u8])
    ensures
        final(dst)@ == old(dst)@ + src@,
{
    let mut i: usize = 0;
    while i < src.len()
        invariant
            i <= src.len(),
            dst@ == old(dst)@ + src@.subrange(0, i as int),
        decreases src.len() - i,
    {
        dst.push(src[i]);
        i += 1;
        assert(dst@ =~= old(dst)@ + src@.subrange(0, i as int));
    }
    assert(src@.subrange(0, i as int) =~= src@);
}

fn block1_ok(d: &[u8], off: usize) -> (r: bool)
    ensures
        r == fds_block1_ok(d@, off as int),
{
    if off >= d.len() || d[off] != 1 {
        return false;
    }
    let hvc = nintendo_hvc();
    matches_at(d, off + 1, hvc.as_slice())
}

fn file_ok(s: &[u8], end: usize, fo: usize) -> (r: bool)
    requires
        end <= s.len(),
        end <= 65500,
        fo <= end,
    ensures
        r == fds_file_ok(s@, end as int, fo as int),
{
    if fo + 16 > end || s[fo] != 3 {
        return false;
    }
    let size = read_u16_le(s, fo + 13);
    fo + 17 + (size as usize) <= end && s[fo + 16] == 4
}

proof fn lemma_kind_data_push(s: Seq<u8>, offs: Seq<int>, fo: int, kind: u8)
    ensures
        fds_kind_data(s, offs.push(fo), kind) == fds_kind_data(s, offs, kind) + if s[fo + 15]
            == kind {
            fds_file_data(s, fo)
        } else {
            Seq::empty()
        },
{
    assert(offs.push(fo).drop_last() =~= offs);
}

/// Parses the file table of one side, appending the program and character
/// data to `prg` and `chr`.
fn parse_side_files(s: &[u8], prg: &mut Vec<u8>, chr: &mut Vec<u8>) -> (files: Vec<FdsFileEntry>)
    requires
        s.len() >= 0x3A,
    ensures
        files@.len() == fds_side_files(s@).len(),
        forall|j: int|
            0 <= j < files@.len() ==> fds_entry_matches(s@, fds_side_files(s@)[j], #[trigger] files@[j]),
        final(prg)@ == old(prg)@ + fds_kind_data(s@, fds_side_files(s@), 0),
        final(chr)@ == old(chr)@ + fds_kind_data(s@, fds_side_files(s@), 1),
{
    let file_count: u8 = if s[0x38] == 2 {
        s[0x39]
    } else {
        0
    };
    let side_end: usize = if s.len() < DISK_SIDE_SIZE {
        s.len()
    } else {
        DISK_SIDE_SIZE
    };
    let ghost sv = s@;
    let ghost full = fds_side_files(sv);
    let ghost mut done: Seq<int> = Seq::empty();
    let mut files: Vec<FdsFileEntry> = Vec::new();
    let mut fo: usize = 0x3A;
    let mut i: u8 = 0;
    assert(full =~= done + fds_file_offsets(sv, side_end as int, fo as int, (file_count - i) as nat));
    while i < file_count && file_ok(s, side_end, fo)
        invariant
            sv == s@,
            s.len() >= 0x3A,
            side_end == fds_side_end(sv),
            side_end <= 65500,
            file_count == fds_file_count(sv),
            full == fds_side_files(sv),
            i <= file_count,
            fo <= side_end,
            full == done + fds_file_offsets(sv, side_end as int, fo as int, (file_count - i) as nat),
            files@.len() == done.len(),
            forall|j: int| 0 <= j < done.len() ==> fds_entry_matches(sv, done[j], #[trigger] files@[j]),
            prg@ == old(prg)@ + fds_kind_data(sv, done, 0),
            chr@ == old(chr)@ + fds_kind_data(sv, done, 1),
        decreases file_count - i,
    {
        let ghost rest = fds_file_offsets(sv, side_end as int, fo as int, (file_count - i) as nat);
        let file_number = s[fo + 1];
        let file_name: [u8; 8] = [
            s[fo + 3],
            s[fo + 4],
            s[fo + 5],
            s[fo + 6],
            s[fo + 7],
            s[fo + 8],
            s[fo + 9],
            s[fo + 10],
        ];
        assert(file_name@ =~= sv.subrange(fo + 3, fo + 11));
        let file_size = read_u16_le(s, fo + 13);
        let file_kind = FdsFileKind::from_byte(s[fo + 15]);
        let data_start = fo + 17;
        let data_end = data_start + file_size as usize;
        let file_data = &s[data_start..data_end];
        assert(file_data@ =~= fds_file_data(sv, fo as int));
        if s[fo + 15] == 0 {
            extend_bytes(prg, file_data);
        } else if s[fo + 15] == 1 {
            extend_bytes(chr, file_data);
        }
        let crc = crc32(file_data);
        let sha1 = compute_sha1(file_data);
        let entry = FdsFileEntry {
            file_number,
            file_name,
            file_kind,
            file_size,
            crc32: crc,
            sha1,
        };
        files.push(entry);
        proof {
            lemma_kind_data_push(sv, done, fo as int, 0);
            lemma_kind_data_push(sv, done, fo as int, 1);
            assert(rest == seq![fo as int] + fds_file_offsets(
                sv,
                side_end as int,
                data_end as int,
                (file_count - i - 1) as nat,
            ));
            assert(full =~= done.push(fo as int) + fds_file_offsets(
                sv,
                side_end as int,
                data_end as int,
                (file_count - i - 1) as nat,
            ));
            assert forall|j: int| 0 <= j < done.len() + 1 implies fds_entry_matches(
                sv,
                done.push(fo as int)[j],
                #[trigger] files@[j],
            ) by {
                if j < done.len() {
                    assert(done.push(fo as int)[j] == done[j]);
                }
            }
            done = done.push(fo as int);
        }
        fo = data_end;
        i += 1;
    }
    proof {
        assert(fds_file_offsets(sv, side_end as int, fo as int, (file_count - i) as nat).len() == 0);
        assert(full =~= done);
    }
    files
}

proof fn lemma_all_kind_step(d: Seq<u8>, k: nat, kind: u8)
    ensures
        fds_all_kind_data(d, k + 1, kind) == fds_all_kind_data(d, k, kind) + fds_kind_data(
            fds_side(d, k),
            fds_side_files(fds_side(d, k)),
            kind,
        ),
{
}

impl FdsRomInfo {
    /// Parse an FDS image: the optional fwNES header, every disk side with
    /// its file table, and the digests of the program and character data.
    pub fn try_from(buffer: &[u8]) -> (r: Result<FdsRomInfo, ParseError>)
        ensures
            match r {
                Ok(info) => fds_parse_error(buffer@) is None && fds_info_matches(buffer@, info),
                Err(e) => fds_parse_error(buffer@) == Some(e),
            },
    {
        let magic = fwnes_magic();
        let has_header = matches_at(buffer, 0, magic.as_slice());
        if has_header && buffer.len() < FWNES_HEADER_BYTES {
            return Err(ParseError::BufferTooSmall);
        }
        let data_start: usize = if has_header {
            FWNES_HEADER_BYTES
        } else {
            0
        };
        let disk_data = &buffer[data_start..buffer.len()];
        let ghost d = fds_disk(buffer@);
        assert(disk_data@ =~= d);
        let len = disk_data.len();
        if len < SIDE_MIN_PARSE_BYTES {
            return Err(ParseError::BufferTooSmall);
        }
        if !block1_ok(disk_data, 0) {
            return Err(ParseError::MagicNotFound);
        }
        let rom_sha1 = compute_sha1(disk_data);
        let mut sides: Vec<FdsSideInfo> = Vec::new();
        let mut prg_data_all: Vec<u8> = Vec::new();
        let mut chr_data_all: Vec<u8> = Vec::new();
        let mut offset: usize = 0;
        let mut more = true;
        let ghost mut k: nat = 0;
        assert(fds_all_kind_data(d, 0, 0) =~= Seq::<u8>::empty());
        assert(fds_all_kind_data(d, 0, 1) =~= Seq::<u8>::empty());
        while more && len - offset >= SIDE_MIN_PARSE_BYTES && block1_ok(disk_data, offset)
            invariant
                disk_data@ == d,
                len == d.len(),
                offset <= len,
                more ==> offset == k * 65500,
                !more ==> k * 65500 > len,
                fds_side_count(d) == k + fds_side_count_from(d, k),
                sides@.len() == k,
                forall|j: int| 0 <= j < k ==> fds_side_matches(fds_side(d, j as nat), #[trigger] sides@[j]),
                prg_data_all@ == fds_all_kind_data(d, k, 0),
                chr_data_all@ == fds_all_kind_data(d, k, 1),
            decreases len - offset + if more { 1int } else { 0int },
        {
            let side = &disk_data[offset..len];
            assert(side@ =~= fds_side(d, k));
            assert(fds_side_ok(d, k));
            let files = parse_side_files(side, &mut prg_data_all, &mut chr_data_all);
            let info = FdsSideInfo {
                licensee_code: side[0x0F],
                game_name: [side[0x10], side[0x11], side[0x12]],
                game_type: FdsGameType::from_byte(side[0x13]),
                game_version: side[0x14],
                side: FdsDiskSide::from_byte(side[0x15]),
                disk_number: side[0x16],
                manufacturing_date: FdsDate::from_bytes([side[0x1F], side[0x20], side[0x21]]),
                country: FdsCountry::from_byte(side[0x22]),
                rewrite_date: FdsDate::from_bytes([side[0x2C], side[0x2D], side[0x2E]]),
                disk_rewrite_count: side[0x34],
                disk_version: side[0x37],
                file_count: if side[0x38] == 2 {
                    side[0x39]
                } else {
                    0
                },
                files,
            };
            assert(info.game_name@ =~= side@.subrange(0x10, 0x13));
            assert(info.manufacturing_date.raw@ =~= side@.subrange(0x1F, 0x22));
            assert(info.rewrite_date.raw@ =~= side@.subrange(0x2C, 0x2F));
            let ghost prev = sides@;
            sides.push(info);
            proof {
                lemma_all_kind_step(d, k, 0);
                lemma_all_kind_step(d, k, 1);
                assert forall|j: int| 0 <= j < k + 1 implies fds_side_matches(
                    fds_side(d, j as nat),
                    #[trigger] sides@[j],
                ) by {
                    if j < k {
                        assert(sides@[j] == prev[j]);
                    }
                }
                k = k + 1;
            }
            if len - offset < DISK_SIDE_SIZE {
                more = false;
            } else {
                offset = offset + DISK_SIDE_SIZE;
            }
        }
        proof {
            assert(!fds_side_ok(d, k));
        }
        if sides.len() == 0 {
            return Err(ParseError::InvalidHeader);
        }
        let prg_size = prg_data_all.len() as u32;
        let chr_size = chr_data_all.len() as u32;
        let prg_crc32 = crc32(prg_data_all.as_slice());
        let chr_crc32 = if chr_data_all.len() == 0 {
            None
        } else {
            Some(crc32(chr_data_all.as_slice()))
        };
        Ok(FdsRomInfo { has_header, sides, prg_size, chr_size, prg_crc32, chr_crc32, rom_sha1 })
    }
}

impl RomInfo for FdsRomInfo {
    fn console(&self) -> (r: &'static str)
        ensures
            r@ == "Famicom Disk System"@,
    {
        "Famicom Disk System"
    }

    fn dat_meta(&self) -> (r: DatMeta)
        ensures
            meta_is_empty(r),
    {
        DatMeta::empty()
    }
}

impl RomHash for FdsRomInfo {
    fn sha1(&self) -> (r: [u8; 20])
        ensures
            r@ == self.rom_sha1@,
    {
        self.rom_sha1
    }
}

// ---------------------------------------------------------------------------
// Report
// ---------------------------------------------------------------------------

/// How a file kind is written in the file list.
pub open spec fn fds_kind_text(k: FdsFileKind) -> Seq<char> {
    match k {
        FdsFileKind::Program => "PRG"@,
        FdsFileKind::Character => "CHR"@,
        FdsFileKind::Nametable => "NT "@,
        FdsFileKind::Unknown(b) => "?"@ + hex_padded(b as nat, 2),
    }
}

/// How a game type is written.
pub open spec fn fds_game_type_text(t: FdsGameType) -> Seq<char> {
    match t {
        FdsGameType::Normal => "Normal disk"@,
        FdsGameType::Event => "Event"@,
        FdsGameType::Reduction => "Reduction in price via advertising"@,
        FdsGameType::Unknown(b) => "Unknown (0x"@ + hex_padded(b as nat, 2) + ")"@,
    }
}

/// How a country is written.
pub open spec fn fds_country_text(c: FdsCountry) -> Seq<char> {
    match c {
        FdsCountry::Japan => "Japan (0x49)"@,
        FdsCountry::Unknown(b) => "Unknown (0x"@ + hex_padded(b as nat, 2) + ")"@,
    }
}

/// How a disk side is written.
pub open spec fn fds_side_text(s: FdsDiskSide) -> Seq<char> {
    match s {
        FdsDiskSide::A => "A"@,
        FdsDiskSide::B => "B"@,
        FdsDiskSide::Unknown(b) => "? (0x"@ + hex_padded(b as nat, 2) + ")"@,
    }
}

/// A date as `YYYY-MM-DD`, or `(none)` when no date is recorded.
pub open spec fn fds_date_text(d: FdsDate) -> Seq<char> {
    if d.raw@[0] == 0 && d.raw@[1] == 0 && d.raw@[2] == 0 {
        "(none)"@
    } else {
        dec_zero_padded(spec_fds_year(d.raw@[0]) as nat, 4) + "-"@ + dec_zero_padded(
            spec_bcd(d.raw@[1]) as nat,
            2,
        ) + "-"@ + dec_zero_padded(spec_bcd(d.raw@[2]) as nat, 2)
    }
}

/// A name field as text: decoded leniently, trailing NULs dropped.
pub open spec fn fds_name_text(bytes: Seq<u8>) -> Seq<char> {
    trim_end(spec_utf8_lossy(bytes), CharClass::Nul)
}

/// The line of one file in the file list.
pub open spec fn fds_file_line(f: FdsFileEntry) -> Seq<char> {
    "    File "@ + dec_padded(f.file_number as nat, 2) + ": "@ + left_padded(
        fds_name_text(f.file_name@),
        8,
    ) + " ("@ + fds_kind_text(f.file_kind) + ")  "@ + dec_padded(f.file_size as nat, 5)
        + " bytes  CRC32: "@ + hex_padded(f.crc32 as nat, 8) + "  SHA1: "@ + spec_hex(f.sha1@, true)
        + "\n"@
}

/// The lines of a list of files.
pub open spec fn fds_file_lines(fs: Seq<FdsFileEntry>) -> Seq<char>
    decreases fs.len(),
{
    if fs.len() == 0 {
        Seq::empty()
    } else {
        fds_file_lines(fs.drop_last()) + fds_file_line(fs.last())
    }
}

/// The lines of the `k`-th side (counted from zero) and its files.
pub open spec fn fds_side_lines(k: nat, s: FdsSideInfo) -> Seq<char> {
    "  Side "@ + spec_decimal(k + 1) + ": Disk "@ + spec_decimal((s.disk_number + 1) as nat) + " Side "@
        + fds_side_text(s.side) + " - "@ + spec_decimal(s.file_count as nat) + " files\n"@
        + fds_file_lines(s.files@)
}

/// The lines of the first `n` sides.
pub open spec fn fds_sides_lines(sides: Seq<FdsSideInfo>, n: nat) -> Seq<char>
    decreases n,
{
    if n == 0 {
        Seq::empty()
    } else {
        fds_sides_lines(sides, (n - 1) as nat) + fds_side_lines((n - 1) as nat, sides[n - 1])
    }
}

/// The licensee line, with the licensee's name where it is known.
pub open spec fn fds_licensee_line(code: u8, name: Option<Seq<char>>) -> Seq<char> {
    match name {
        Some(n) => "Licensee: "@ + n + " (0x"@ + hex_padded(code as nat, 2) + ")\n"@,
        None => "Licensee: 0x"@ + hex_padded(code as nat, 2) + "\n"@,
    }
}

/// The lines about the first side's disk info.
pub open spec fn fds_report_head(first: FdsSideInfo, licensee: Option<Seq<char>>) -> Seq<char> {
    "Game Name: "@ + fds_name_text(first.game_name@) + "\n"@ + "Game Version: "@ + spec_decimal(
        first.game_version as nat,
    ) + "\n"@ + "Game Type: "@ + fds_game_type_text(first.game_type) + "\n"@ + fds_licensee_line(
        first.licensee_code,
        licensee,
    ) + "Manufacturing Date: "@ + fds_date_text(first.manufacturing_date) + "\n"@ + "Country: "@
        + fds_country_text(first.country) + "\n"@
}

/// The ROM sizes, rewrite, file-format and digest lines.
pub open spec fn fds_report_tail(i: FdsRomInfo) -> Seq<char> {
    fds_sizes_text(i) + fds_rewrite_text(i) + (if i.has_header {
        "File Format: fwNES (.FDS with header)\n"@
    } else {
        "File Format: .FDS (headerless)\n"@
    }) + sha1_text(i.rom_sha1@) + "\n"@
}

/// The PRG and CHR size and checksum lines of the report.
pub open spec fn fds_sizes_text(i: FdsRomInfo) -> Seq<char> {
    "PRG-ROM: "@ + dec_padded((i.prg_size / 1024) as nat, 3) + "kb\tCRC32: "@ + hex_padded(
        i.prg_crc32 as nat,
        8,
    ) + match i.chr_crc32 {
        Some(c) => "\nCHR-ROM: "@ + dec_padded((i.chr_size / 1024) as nat, 3) + "kb\tCRC32: "@
            + hex_padded(c as nat, 8),
        None => Seq::empty(),
    } + "\n"@
}

/// The rewrite lines of the report, present when the first side was rewritten.
pub open spec fn fds_rewrite_text(i: FdsRomInfo) -> Seq<char> {
    if i.sides@.len() > 0 && i.sides@[0].disk_rewrite_count != 0 {
        "Rewrite Count: "@ + spec_decimal(spec_bcd(i.sides@[0].disk_rewrite_count) as nat) + "\n"@
            + "Rewrite Date: "@ + fds_date_text(i.sides@[0].rewrite_date) + "\n"@
    } else {
        Seq::empty()
    }
}

/// The report of an FDS image, given the first side's licensee name where
/// its code is known.
pub open spec fn fds_report(i: FdsRomInfo, licensee: Option<Seq<char>>) -> Seq<char> {
    fds_report_head(i.sides@[0], licensee) + "Disk Sides: "@ + spec_decimal(i.sides@.len() as nat)
        + "\n"@ + fds_sides_lines(i.sides@, i.sides@.len()) + fds_report_tail(i)
}

fn push_kind_text(out: &mut Vec<char>, k: FdsFileKind)
    ensures
        final(out)@ == old(out)@ + fds_kind_text(k),
{
    let mut t: Vec<char> = Vec::new();
    match k {
        FdsFileKind::Program => append_str(&mut t, "PRG"),
        FdsFileKind::Character => append_str(&mut t, "CHR"),
        FdsFileKind::Nametable => append_str(&mut t, "NT "),
        FdsFileKind::Unknown(b) => {
            append_str(&mut t, "?");
            push_hex_padded(&mut t, b as u64, 2);
        },
    }
    assert(t@ =~= fds_kind_text(k));
    append_chars(out, &t);
}

fn push_game_type_text(out: &mut Vec<char>, g: FdsGameType)
    ensures
        final(out)@ == old(out)@ + fds_game_type_text(g),
{
    let mut t: Vec<char> = Vec::new();
    match g {
        FdsGameType::Normal => append_str(&mut t, "Normal disk"),
        FdsGameType::Event => append_str(&mut t, "Event"),
        FdsGameType::Reduction => append_str(&mut t, "Reduction in price via advertising"),
        FdsGameType::Unknown(b) => {
            append_str(&mut t, "Unknown (0x");
            push_hex_padded(&mut t, b as u64, 2);
            append_str(&mut t, ")");
        },
    }
    assert(t@ =~= fds_game_type_text(g));
    append_chars(out, &t);
}

fn push_country_text(out: &mut Vec<char>, c: FdsCountry)
    ensures
        final(out)@ == old(out)@ + fds_country_text(c),
{
    let mut t: Vec<char> = Vec::new();
    match c {
        FdsCountry::Japan => append_str(&mut t, "Japan (0x49)"),
        FdsCountry::Unknown(b) => {
            append_str(&mut t, "Unknown (0x");
            push_hex_padded(&mut t, b as u64, 2);
            append_str(&mut t, ")");
        },
    }
    assert(t@ =~= fds_country_text(c));
    append_chars(out, &t);
}

fn push_side_text(out: &mut Vec<char>, s: FdsDiskSide)
    ensures
        final(out)@ == old(out)@ + fds_side_text(s),
{
    let mut t: Vec<char> = Vec::new();
    match s {
        FdsDiskSide::A => append_str(&mut t, "A"),
        FdsDiskSide::B => append_str(&mut t, "B"),
        FdsDiskSide::Unknown(b) => {
            append_str(&mut t, "? (0x");
            push_hex_padded(&mut t, b as u64, 2);
            append_str(&mut t, ")");
        },
    }
    assert(t@ =~= fds_side_text(s));
    append_chars(out, &t);
}

fn push_date_text(out: &mut Vec<char>, d: &FdsDate)
    ensures
        final(out)@ == old(out)@ + fds_date_text(*d),
{
    let mut t: Vec<char> = Vec::new();
    if d.is_empty() {
        append_str(&mut t, "(none)");
    } else {
        push_dec_zero_padded(&mut t, d.year() as u64, 4);
        append_str(&mut t, "-");
        push_dec_zero_padded(&mut t, d.month() as u64, 2);
        append_str(&mut t, "-");
        push_dec_zero_padded(&mut t, d.day() as u64, 2);
    }
    assert(t@ =~= fds_date_text(*d));
    append_chars(out, &t);
}

fn name_chars(bytes: &[u8]) -> (r: Vec<char>)
    ensures
        r@ == fds_name_text(bytes@),
{
    let v = utf8_lossy(bytes);
    trim_end_chars(&v, CharClass::Nul)
}

fn push_file_line(out: &mut Vec<char>, f: &FdsFileEntry)
    ensures
        final(out)@ == old(out)@ + fds_file_line(*f),
{
    let mut t: Vec<char> = Vec::new();
    append_str(&mut t, "    File ");
    push_dec_padded(&mut t, f.file_number as u64, 2);
    append_str(&mut t, ": ");
    let name = name_chars(f.file_name.as_slice());
    push_left_padded(&mut t, &name, 8);
    append_str(&mut t, " (");
    push_kind_text(&mut t, f.file_kind);
    append_str(&mut t, ")  ");
    push_dec_padded(&mut t, f.file_size as u64, 5);
    append_str(&mut t, " bytes  CRC32: ");
    push_hex_padded(&mut t, f.crc32 as u64, 8);
    append_str(&mut t, "  SHA1: ");
    let h = hex_chars(f.sha1.as_slice(), true);
    append_chars(&mut t, &h);
    append_str(&mut t, "\n");
    assert(t@ =~= fds_file_line(*f));
    append_chars(out, &t);
}

fn push_side_lines(out: &mut Vec<char>, k: usize, s: &FdsSideInfo)
    requires
        k < usize::MAX,
        s.disk_number < 255,
    ensures
        final(out)@ == old(out)@ + fds_side_lines(k as nat, *s),
{
    let mut t: Vec<char> = Vec::new();
    append_str(&mut t, "  Side ");
    push_dec(&mut t, (k + 1) as u64);
    append_str(&mut t, ": Disk ");
    push_dec(&mut t, (s.disk_number + 1) as u64);
    append_str(&mut t, " Side ");
    push_side_text(&mut t, s.side);
    append_str(&mut t, " - ");
    push_dec(&mut t, s.file_count as u64);
    append_str(&mut t, " files\n");
    let ghost head = t@;
    let mut j: usize = 0;
    while j < s.files.len()
        invariant
            j <= s.files.len(),
            t@ == head + fds_file_lines(s.files@.take(j as int)),
        decreases s.files.len() - j,
    {
        assert(s.files@.take(j + 1).drop_last() =~= s.files@.take(j as int));
        push_file_line(&mut t, &s.files[j]);
        j += 1;
        assert(t@ =~= head + fds_file_lines(s.files@.take(j as int)));
    }
    assert(s.files@.take(j as int) =~= s.files@);
    assert(t@ =~= fds_side_lines(k as nat, *s));
    append_chars(out, &t);
}

fn push_fds_head(out: &mut Vec<char>, first: &FdsSideInfo, licensee: Option<&str>)
    ensures
        final(out)@ == old(out)@ + fds_report_head(
            *first,
            match licensee {
                Some(n) => Some(n@),
                None => None,
            },
        ),
{
    let mut t: Vec<char> = Vec::new();
    append_str(&mut t, "Game Name: ");
    let name = name_chars(first.game_name.as_slice());
    append_chars(&mut t, &name);
    append_str(&mut t, "\n");
    append_str(&mut t, "Game Version: ");
    push_dec(&mut t, first.game_version as u64);
    append_str(&mut t, "\n");
    append_str(&mut t, "Game Type: ");
    push_game_type_text(&mut t, first.game_type);
    append_str(&mut t, "\n");
    let ghost before_licensee = t@;
    match licensee {
        Some(n) => {
            append_str(&mut t, "Licensee: ");
            append_str(&mut t, n);
            append_str(&mut t, " (0x");
            push_hex_padded(&mut t, first.licensee_code as u64, 2);
            append_str(&mut t, ")\n");
        },
        None => {
            append_str(&mut t, "Licensee: 0x");
            push_hex_padded(&mut t, first.licensee_code as u64, 2);
            append_str(&mut t, "\n");
        },
    }
    assert(t@ =~= before_licensee + fds_licensee_line(
        first.licensee_code,
        match licensee {
            Some(n) => Some(n@),
            None => None,
        },
    ));
    append_str(&mut t, "Manufacturing Date: ");
    push_date_text(&mut t, &first.manufacturing_date);
    append_str(&mut t, "\n");
    append_str(&mut t, "Country: ");
    push_country_text(&mut t, first.country);
    append_str(&mut t, "\n");
    assert(t@ =~= fds_report_head(
        *first,
        match licensee {
            Some(n) => Some(n@),
            None => None,
        },
    ));
    append_chars(out, &t);
}

fn push_fds_sizes(out: &mut Vec<char>, i: &FdsRomInfo)
    ensures
        final(out)@ == old(out)@ + fds_sizes_text(*i),
{
    let mut t: Vec<char> = Vec::new();
    append_str(&mut t, "PRG-ROM: ");
    push_dec_padded(&mut t, (i.prg_size / 1024) as u64, 3);
    append_str(&mut t, "kb\tCRC32: ");
    push_hex_padded(&mut t, i.prg_crc32 as u64, 8);
    if let Some(c) = i.chr_crc32 {
        append_str(&mut t, "\nCHR-ROM: ");
        push_dec_padded(&mut t, (i.chr_size / 1024) as u64, 3);
        append_str(&mut t, "kb\tCRC32: ");
        push_hex_padded(&mut t, c as u64, 8);
    }
    append_str(&mut t, "\n");
    assert(t@ =~= fds_sizes_text(*i));
    append_chars(out, &t);
}

fn push_fds_rewrite(out: &mut Vec<char>, i: &FdsRomInfo)
    requires
        i.sides@.len() > 0,
    ensures
        final(out)@ == old(out)@ + fds_rewrite_text(*i),
{
    let mut t: Vec<char> = Vec::new();
    let first = &i.sides[0];
    if first.disk_rewrite_count != 0 {
        append_str(&mut t, "Rewrite Count: ");
        push_dec(&mut t, bcd_to_u8(first.disk_rewrite_count) as u64);
        append_str(&mut t, "\n");
        append_str(&mut t, "Rewrite Date: ");
        push_date_text(&mut t, &first.rewrite_date);
        append_str(&mut t, "\n");
    }
    assert(t@ =~= fds_rewrite_text(*i));
    append_chars(out, &t);
}

fn push_fds_tail(out: &mut Vec<char>, i: &FdsRomInfo)
    requires
        i.sides@.len() > 0,
    ensures
        final(out)@ == old(out)@ + fds_report_tail(*i),
{
    let mut t: Vec<char> = Vec::new();
    push_fds_sizes(&mut t, i);
    push_fds_rewrite(&mut t, i);
    if i.has_header {
        append_str(&mut t, "File Format: fwNES (.FDS with header)\n");
    } else {
        append_str(&mut t, "File Format: .FDS (headerless)\n");
    }
    push_sha1(&mut t, &i.rom_sha1);
    append_str(&mut t, "\n");
    assert(t@ =~= fds_report_tail(*i));
    append_chars(out, &t);
}

impl FdsRomInfo {
    /// The report the inspector prints for the image, given the first
    /// side's licensee name where its code is known.
    pub fn describe(&self, licensee: Option<&str>) -> (r: String)
        requires
            self.sides@.len() > 0,
            forall|k: int| 0 <= k < self.sides@.len() ==> (#[trigger] self.sides@[k]).disk_number < 255,
        ensures
            r@ == fds_report(
                *self,
                match licensee {
                    Some(n) => Some(n@),
                    None => None,
                },
            ),
    {
        let mut t: Vec<char> = Vec::new();
        push_fds_head(&mut t, &self.sides[0], licensee);
        append_str(&mut t, "Disk Sides: ");
        push_dec(&mut t, self.sides.len() as u64);
        append_str(&mut t, "\n");
        let ghost head = t@;
        let mut k: usize = 0;
        while k < self.sides.len()
            invariant
                k <= self.sides.len(),
                forall|m: int| 0 <= m < self.sides@.len() ==> (#[trigger] self.sides@[m]).disk_number < 255,
                t@ == head + fds_sides_lines(self.sides@, k as nat),
            decreases self.sides.len() - k,
        {
            push_side_lines(&mut t, k, &self.sides[k]);
            k += 1;
        }
        push_fds_tail(&mut t, self);
        assert(t@ =~= fds_report(
            *self,
            match licensee {
                Some(n) => Some(n@),
                None => None,
            },
        ));
        crate::ext::string_from_chars(&t)
    }
}

} // verus!
