//! CUE sheets: sector sizes, track byte ranges and their digests, quoting,
//! and the sheet written back with the disc analysis as REM lines.
//!
//! Times are counted in CD frames (75 per second), as the sheet writes them.

use crate::ext::{compute_md5, compute_sha1, compute_sha256, crc32, spec_crc32, spec_md5, spec_sha1, spec_sha256, spec_to_uppercase, string_from_chars, to_uppercase};
use crate::text::chars_of;
use crate::systems::disc::{analysis_view, DiscAnalysis};
use crate::text::{
    string_seqs,
    append_chars, append_str, chars_eq, char_seqs, decimal_chars, join_chars, join_with, spec_decimal,
    spec_hex, trim_both_chars, trim_ws, CharClass,
};
use crate::traits::opt_view;
use vstd::prelude::*;

verus! {

/// A SHA-1 digest as upper-case hexadecimal text.
pub fn format_sha1(hash: &[u8; 20]) -> (r: String)
    ensures
        r@ == spec_hex(hash@, true),
{
    crate::output::hash::format_sha1(hash)
}

// ---------------------------------------------------------------------------
// Sector sizes and times
// ---------------------------------------------------------------------------

/// The sector size of a track format (upper-cased first); raw 2352 for
/// formats not listed.
pub open spec fn spec_sector_size(format: Seq<char>) -> usize {
    let f = spec_to_uppercase(format);
    if f == "AUDIO"@ {
        2352
    } else if f == "MODE1/2048"@ {
        2048
    } else if f == "MODE1/2352"@ {
        2352
    } else if f == "MODE2/2048"@ {
        2048
    } else if f == "MODE2/2324"@ {
        2324
    } else if f == "MODE2/2336"@ {
        2336
    } else if f == "MODE2/2352"@ {
        2352
    } else if f == "CDG"@ {
        2448
    } else if f == "CDI/2336"@ {
        2336
    } else if f == "CDI/2352"@ {
        2352
    } else {
        2352
    }
}

fn is_text(v: &Vec<char>, s: &str) -> (r: bool)
    ensures
        r == (v@ == s@),
{
    let c = chars_of(s);
    chars_eq(v, &c)
}

pub fn sector_size_for_format(format: &str) -> (r: usize)
    ensures
        r == spec_sector_size(format@),
        r <= 2448,
{
    let f = to_uppercase(&chars_of(format));
    if is_text(&f, "AUDIO") {
        2352
    } else if is_text(&f, "MODE1/2048") {
        2048
    } else if is_text(&f, "MODE1/2352") {
        2352
    } else if is_text(&f, "MODE2/2048") {
        2048
    } else if is_text(&f, "MODE2/2324") {
        2324
    } else if is_text(&f, "MODE2/2336") {
        2336
    } else if is_text(&f, "MODE2/2352") {
        2352
    } else if is_text(&f, "CDG") {
        2448
    } else if is_text(&f, "CDI/2336") {
        2336
    } else if is_text(&f, "CDI/2352") {
        2352
    } else {
        2352
    }
}

/// The byte offset of a time of `total_frames` frames in sectors of `sector_size` bytes.
pub fn duration_to_bytes(total_frames: u64, sector_size: usize) -> (r: usize)
    requires
        total_frames * sector_size <= usize::MAX,
    ensures
        r == total_frames * sector_size,
{
    if sector_size == 0 {
        return 0;
    }
    assert(total_frames <= total_frames * sector_size) by (nonlinear_arith)
        requires
            sector_size >= 1,
    ;
    (total_frames as usize) * sector_size
}

/// A number written with at least two digits (`{:02}`).
pub open spec fn pad2(n: nat) -> Seq<char> {
    if n < 10 {
        seq!['0'] + spec_decimal(n)
    } else {
        spec_decimal(n)
    }
}

/// A time of `f` frames as `MM:SS:FF`.
pub open spec fn spec_timestamp(f: nat) -> Seq<char> {
    pad2(f / 75 / 60) + seq![':'] + pad2((f / 75) % 60) + seq![':'] + pad2(f % 75)
}

fn push_pad2(out: &mut Vec<char>, n: u64)
    ensures
        final(out)@ == old(out)@ + pad2(n as nat),
{
    if n < 10 {
        out.push('0');
    }
    let d = decimal_chars(n);
    append_chars(out, &d);
    assert(final(out)@ =~= old(out)@ + pad2(n as nat));
}

fn push_timestamp(out: &mut Vec<char>, total_frames: u64)
    ensures
        final(out)@ == old(out)@ + spec_timestamp(total_frames as nat),
{
    let frames = total_frames % 75;
    let total_seconds = total_frames / 75;
    let seconds = total_seconds % 60;
    let minutes = total_seconds / 60;
    push_pad2(out, minutes);
    out.push(':');
    push_pad2(out, seconds);
    out.push(':');
    push_pad2(out, frames);
    assert(final(out)@ =~= old(out)@ + spec_timestamp(total_frames as nat));
}

/// A time of `total_frames` CD frames as `MM:SS:FF` (75 frames a second).
pub fn duration_to_timestamp(total_frames: u64) -> (r: String)
    ensures
        r@ == spec_timestamp(total_frames as nat),
{
    let mut out: Vec<char> = Vec::new();
    push_timestamp(&mut out, total_frames);
    assert(out@ =~= spec_timestamp(total_frames as nat));
    string_from_chars(&out)
}

// ---------------------------------------------------------------------------
// Quoting
// ---------------------------------------------------------------------------

/// A character as it stands between quotes: backslash and quote escaped.
pub open spec fn escape_char(c: char) -> Seq<char> {
    if c == '\\' {
        seq!['\\', '\\']
    } else if c == '"' {
        seq!['\\', '"']
    } else {
        seq![c]
    }
}

/// Every character of `s` escaped.
pub open spec fn escape_raw(s: Seq<char>) -> Seq<char>
    decreases s.len(),
{
    if s.len() == 0 {
        Seq::empty()
    } else {
        escape_raw(s.drop_last()) + escape_char(s.last())
    }
}

/// Text escaped for a quoted CUE field, then trimmed.
pub open spec fn spec_escape_quotes(s: Seq<char>) -> Seq<char> {
    trim_ws(escape_raw(s))
}

pub fn escape_quotes(s: &str) -> (r: String)
    ensures
        r@ == spec_escape_quotes(s@),
{
    let v = chars_of(s);
    let mut out: Vec<char> = Vec::new();
    let mut i: usize = 0;
    while i < v.len()
        invariant
            v@ == s@,
            i <= v.len(),
            out@ == escape_raw(v@.take(i as int)),
        decreases v.len() - i,
    {
        assert(v@.take(i + 1).drop_last() =~= v@.take(i as int));
        let c = v[i];
        if c == '\\' {
            out.push('\\');
            out.push('\\');
        } else if c == '"' {
            out.push('\\');
            out.push('"');
        } else {
            out.push(c);
        }
        i += 1;
        assert(out@ =~= escape_raw(v@.take(i as int)));
    }
    assert(v@.take(i as int) =~= v@);
    let t = trim_both_chars(&out, CharClass::Whitespace);
    string_from_chars(&t)
}

// ---------------------------------------------------------------------------
// The sheet
// ---------------------------------------------------------------------------

/// One track of a CUE sheet; times in frames.
pub struct CueTrack {
    pub no: String,
    pub format: String,
    pub title: Option<String>,
    pub performer: Option<String>,
    pub songwriter: Option<String>,
    pub isrc: Option<String>,
    pub flags: Vec<String>,
    pub unknown: Vec<String>,
    pub pregap: Option<u64>,
    pub postgap: Option<u64>,
    pub indices: Vec<(String, u64)>,
}

/// One FILE entry of a CUE sheet.
pub struct CueSheetFile {
    pub file: String,
    pub format: String,
    pub tracks: Vec<CueTrack>,
}

/// A parsed CUE sheet.
pub struct CueSheet {
    pub files: Vec<CueSheetFile>,
    pub title: Option<String>,
    pub performer: Option<String>,
    pub songwriter: Option<String>,
    pub cd_text_file: Option<String>,
    pub catalog: Option<String>,
    pub unknown: Vec<String>,
}

/// What is reported for one track.
pub struct TrackAnalysis {
    pub sha1: String,
    pub size: usize,
}

/// The digests of one track's data.
pub struct TrackHash {
    pub number: String,
    pub format: String,
    pub crc32: u32,
    pub md5: [u8; 16],
    pub sha1: [u8; 20],
    pub sha256: [u8; 32],
    pub size: usize,
    pub isrc: Option<String>,
}

// ---------------------------------------------------------------------------
// Track boundaries
// ---------------------------------------------------------------------------

/// The time of the first index named `a` or `b`.
pub open spec fn first_named(ix: Seq<(String, u64)>, a: Seq<char>, b: Seq<char>) -> Option<u64>
    decreases ix.len(),
{
    if ix.len() == 0 {
        None
    } else if ix[0].0@ == a || ix[0].0@ == b {
        Some(ix[0].1)
    } else {
        first_named(ix.drop_first(), a, b)
    }
}

/// Where a track starts: its INDEX 01, else its first index.
pub open spec fn track_start(t: CueTrack) -> Option<u64> {
    match first_named(t.indices@, "01"@, "1"@) {
        Some(f) => Some(f),
        None => if t.indices@.len() > 0 {
            Some(t.indices@[0].1)
        } else {
            None
        },
    }
}

/// Where the track before `t` ends: `t`'s INDEX 00 (pregap), else its INDEX 01.
pub open spec fn track_next_start(t: CueTrack) -> Option<u64> {
    match first_named(t.indices@, "00"@, "0"@) {
        Some(f) => Some(f),
        None => first_named(t.indices@, "01"@, "1"@),
    }
}

pub open spec fn min_int(a: int, b: int) -> int {
    if a <= b {
        a
    } else {
        b
    }
}

/// The byte range of track `i` in a file of `len` bytes, when it has a start
/// index: from its start to the next track's start, or to the end of the file.
pub open spec fn track_range(tracks: Seq<CueTrack>, i: int, len: int) -> Option<(int, int)> {
    match track_start(tracks[i]) {
        None => None,
        Some(s) => {
            let ss = spec_sector_size(tracks[i].format@) as int;
            let end = if i + 1 < tracks.len() {
                match track_next_start(tracks[i + 1]) {
                    Some(f) => f * ss,
                    None => len,
                }
            } else {
                len
            };
            Some((min_int(s * ss, len), min_int(end, len)))
        },
    }
}

/// The tracks among the first `n` whose range is not empty, with their ranges.
pub open spec fn hashed_tracks(tracks: Seq<CueTrack>, n: int, len: int) -> Seq<(int, int, int)>
    decreases n,
{
    if n <= 0 {
        Seq::empty()
    } else {
        let r = hashed_tracks(tracks, n - 1, len);
        match track_range(tracks, n - 1, len) {
            Some((s, e)) => if s < e {
                r.push((n - 1, s, e))
            } else {
                r
            },
            None => r,
        }
    }
}

/// A digest record holds the track's number, format and ISRC and the
/// digests and size of its data.
pub open spec fn track_hash_matches(h: TrackHash, t: CueTrack, data: Seq<u8>) -> bool {
    &&& h.number@ == t.no@
    &&& h.format@ == t.format@
    &&& opt_view(h.isrc) == opt_view(t.isrc)
    &&& h.crc32 == spec_crc32(data)
    &&& h.md5@ == spec_md5(data)
    &&& h.sha1@ == spec_sha1(data)
    &&& h.sha256@ == spec_sha256(data)
    &&& h.size == data.len()
}

/// Every index time of every track can be turned into a byte offset.
pub open spec fn frames_fit(tracks: Seq<CueTrack>) -> bool {
    forall|i: int, j: int|
        0 <= i < tracks.len() && 0 <= j < tracks[i].indices@.len() ==> #[trigger] tracks[i].indices@[j].1
            * 2448 <= usize::MAX
}

fn find_named(ix: &Vec<(String, u64)>, a: &str, b: &str) -> (r: Option<u64>)
    ensures
        r == first_named(ix@, a@, b@),
{
    let mut i: usize = 0;
    assert(ix@.skip(0) =~= ix@);
    while i < ix.len()
        invariant
            i <= ix.len(),
            first_named(ix@, a@, b@) == first_named(ix@.skip(i as int), a@, b@),
        decreases ix.len() - i,
    {
        assert(ix@.skip(i as int).drop_first() =~= ix@.skip(i + 1));
        assert(ix@.skip(i as int)[0] == ix@[i as int]);
        let name = ix[i].0.as_str();
        if crate::text::str_eq(name, a) || crate::text::str_eq(name, b) {
            return Some(ix[i].1);
        }
        i += 1;
    }
    None
}

proof fn lemma_first_named_fits(ix: Seq<(String, u64)>, a: Seq<char>, b: Seq<char>)
    requires
        forall|j: int| 0 <= j < ix.len() ==> #[trigger] ix[j].1 * 2448 <= usize::MAX,
    ensures
        first_named(ix, a, b) matches Some(f) ==> f * 2448 <= usize::MAX,
    decreases ix.len(),
{
    if ix.len() > 0 && !(ix[0].0@ == a || ix[0].0@ == b) {
        assert forall|j: int| 0 <= j < ix.drop_first().len() implies #[trigger] ix.drop_first()[j].1
            * 2448 <= usize::MAX by {
            assert(ix.drop_first()[j] == ix[j + 1]);
        }
        lemma_first_named_fits(ix.drop_first(), a, b);
    }
}

proof fn lemma_track_fits(tracks: Seq<CueTrack>, i: int)
    requires
        frames_fit(tracks),
        0 <= i < tracks.len(),
    ensures
        forall|j: int| 0 <= j < tracks[i].indices@.len() ==> #[trigger] tracks[i].indices@[j].1 * 2448
            <= usize::MAX,
{
    assert forall|j: int| 0 <= j < tracks[i].indices@.len() implies #[trigger] tracks[i].indices@[j].1
        * 2448 <= usize::MAX by {
        assert(tracks[i].indices@[j].1 * 2448 <= usize::MAX);
    }
}

fn digest_track(t: &CueTrack, data: &[u8]) -> (h: TrackHash)
    ensures
        track_hash_matches(h, *t, data@),
{
    let isrc = match &t.isrc {
        Some(s) => Some(s.clone()),
        None => None,
    };
    TrackHash {
        number: t.no.clone(),
        format: t.format.clone(),
        crc32: crc32(data),
        md5: compute_md5(data),
        sha1: compute_sha1(data),
        sha256: compute_sha256(data),
        size: data.len(),
        isrc,
    }
}

/// Digest every track of one file: each track runs from its INDEX 01 (or
/// first index) to the next track's INDEX 00 or 01, or to the end of the
/// file, clamped to the data; tracks without data are left out.
pub fn hash_file_tracks(bin_data: &[u8], tracks: &Vec<CueTrack>) -> (r: Vec<TrackHash>)
    requires
        frames_fit(tracks@),
    ensures
        r@.len() == hashed_tracks(tracks@, tracks@.len() as int, bin_data@.len() as int).len(),
        forall|k: int|
            0 <= k < r@.len() ==> {
                let (i, s, e) = hashed_tracks(tracks@, tracks@.len() as int, bin_data@.len() as int)[k];
                track_hash_matches(#[trigger] r@[k], tracks@[i], bin_data@.subrange(s, e))
            },
{
    let len = bin_data.len();
    let ghost b = bin_data@;
    let mut out: Vec<TrackHash> = Vec::new();
    let mut i: usize = 0;
    while i < tracks.len()
        invariant
            i <= tracks.len(),
            len == bin_data.len(),
            b == bin_data@,
            frames_fit(tracks@),
            out@.len() == hashed_tracks(tracks@, i as int, len as int).len(),
            forall|k: int|
                0 <= k < out@.len() ==> {
                    let (ti, s, e) = hashed_tracks(tracks@, i as int, len as int)[k];
                    track_hash_matches(#[trigger] out@[k], tracks@[ti], b.subrange(s, e))
                },
        decreases tracks.len() - i,
    {
        let track = &tracks[i];
        let start = match find_named(&track.indices, "01", "1") {
            Some(f) => Some(f),
            None => if track.indices.len() > 0 {
                Some(track.indices[0].1)
            } else {
                None
            },
        };
        proof {
            lemma_track_fits(tracks@, i as int);
            lemma_first_named_fits(tracks@[i as int].indices@, "01"@, "1"@);
        }
        match start {
            None => {},
            Some(sf) => {
                let ss = sector_size_for_format(track.format.as_str());
                proof {
                    if first_named(tracks@[i as int].indices@, "01"@, "1"@) is None {
                        assert(tracks@[i as int].indices@[0].1 * 2448 <= usize::MAX);
                    }
                    assert(sf * ss <= sf * 2448) by (nonlinear_arith)
                        requires
                            ss <= 2448,
                    ;
                }
                let start_byte = duration_to_bytes(sf, ss);
                let end_byte: usize = if i + 1 < tracks.len() {
                    let next = &tracks[i + 1];
                    let ns = match find_named(&next.indices, "00", "0") {
                        Some(f) => Some(f),
                        None => find_named(&next.indices, "01", "1"),
                    };
                    proof {
                        lemma_track_fits(tracks@, i + 1);
                        lemma_first_named_fits(tracks@[i + 1].indices@, "00"@, "0"@);
                        lemma_first_named_fits(tracks@[i + 1].indices@, "01"@, "1"@);
                    }
                    match ns {
                        Some(f) => {
                            proof {
                                assert(f * ss <= f * 2448) by (nonlinear_arith)
                                    requires
                                        ss <= 2448,
                                ;
                            }
                            duration_to_bytes(f, ss)
                        },
                        None => len,
                    }
                } else {
                    len
                };
                let s = if start_byte < len {
                    start_byte
                } else {
                    len
                };
                let e = if end_byte < len {
                    end_byte
                } else {
                    len
                };
                if s < e {
                    let part = &bin_data[s..e];
                    let h = digest_track(track, part);
                    let ghost prev = out@;
                    out.push(h);
                    proof {
                        let want = hashed_tracks(tracks@, i + 1, len as int);
                        assert(want == hashed_tracks(tracks@, i as int, len as int).push(
                            (i as int, s as int, e as int),
                        ));
                        assert forall|k: int| 0 <= k < out@.len() implies {
                            let (ti, a, z) = want[k];
                            track_hash_matches(#[trigger] out@[k], tracks@[ti], b.subrange(a, z))
                        } by {
                            if k < prev.len() {
                                assert(out@[k] == prev[k]);
                            }
                        }
                    }
                }
            },
        }
        i += 1;
    }
    out
}

/// Whether every index time of every track can be turned into a byte offset.
pub fn tracks_fit(tracks: &Vec<CueTrack>) -> (r: bool)
    ensures
        r == frames_fit(tracks@),
{
    let mut i: usize = 0;
    while i < tracks.len()
        invariant
            i <= tracks.len(),
            forall|a: int, j: int|
                0 <= a < i && 0 <= j < tracks@[a].indices@.len() ==> #[trigger] tracks@[a].indices@[j].1
                    * 2448 <= usize::MAX,
        decreases tracks.len() - i,
    {
        let ix = &tracks[i].indices;
        let mut j: usize = 0;
        while j < ix.len()
            invariant
                i < tracks.len(),
                ix == tracks@[i as int].indices,
                j <= ix.len(),
                forall|a: int, b: int|
                    0 <= a < i && 0 <= b < tracks@[a].indices@.len() ==> #[trigger] tracks@[a].indices@[b].1
                        * 2448 <= usize::MAX,
                forall|b: int| 0 <= b < j ==> #[trigger] ix@[b].1 * 2448 <= usize::MAX,
            decreases ix.len() - j,
        {
            if ix[j].1 > (usize::MAX / 2448) as u64 {
                proof {
                    assert(tracks@[i as int].indices@[j as int].1 * 2448 > usize::MAX);
                }
                return false;
            }
            j += 1;
        }
        i += 1;
    }
    true
}

/// The tracks that the digests of a list of files cover: file index, track
/// index and byte range of each, file after file.
pub open spec fn all_hashed(files: Seq<CueSheetFile>, bins: Seq<Vec<u8>>, n: int) -> Seq<(int, int, int, int)>
    decreases n,
{
    if n <= 0 {
        Seq::empty()
    } else {
        all_hashed(files, bins, n - 1) + hashed_tracks(
            files[n - 1].tracks@,
            files[n - 1].tracks@.len() as int,
            bins[n - 1]@.len() as int,
        ).map_values(|x: (int, int, int)| (n - 1, x.0, x.1, x.2))
    }
}

/// The contents of the first `n` files, one after the other.
pub open spec fn all_bytes(bins: Seq<Vec<u8>>, n: int) -> Seq<u8>
    decreases n,
{
    if n <= 0 {
        Seq::empty()
    } else {
        all_bytes(bins, n - 1) + bins[n - 1]@
    }
}

/// The data of every file of a sheet, one after the other, and the digests
/// of every track with data (see `hash_file_tracks`), file after file;
/// `bins[i]` holds the contents of the `i`-th file.
pub fn hash_cue_data(files: &Vec<CueSheetFile>, bins: &Vec<Vec<u8>>) -> (r: (Vec<u8>, Vec<TrackHash>))
    requires
        files@.len() == bins@.len(),
        forall|i: int| 0 <= i < files@.len() ==> frames_fit(#[trigger] files@[i].tracks@),
    ensures
        r.0@ == all_bytes(bins@, bins@.len() as int),
        r.1@.len() == all_hashed(files@, bins@, files@.len() as int).len(),
        forall|k: int|
            0 <= k < r.1@.len() ==> {
                let (fi, ti, s, e) = all_hashed(files@, bins@, files@.len() as int)[k];
                track_hash_matches(#[trigger] r.1@[k], files@[fi].tracks@[ti], bins@[fi]@.subrange(s, e))
            },
{
    let mut data: Vec<u8> = Vec::new();
    let mut hashes: Vec<TrackHash> = Vec::new();
    let mut i: usize = 0;
    while i < files.len()
        invariant
            i <= files.len(),
            files@.len() == bins@.len(),
            forall|f: int| 0 <= f < files@.len() ==> frames_fit(#[trigger] files@[f].tracks@),
            data@ == all_bytes(bins@, i as int),
            hashes@.len() == all_hashed(files@, bins@, i as int).len(),
            forall|k: int|
                0 <= k < hashes@.len() ==> {
                    let (fi, ti, s, e) = all_hashed(files@, bins@, i as int)[k];
                    track_hash_matches(#[trigger] hashes@[k], files@[fi].tracks@[ti], bins@[fi]@.subrange(s, e))
                },
        decreases files.len() - i,
    {
        let bin = &bins[i];
        let mut part = hash_file_tracks(bin.as_slice(), &files[i].tracks);
        let ghost prev = hashes@;
        let ghost p = part@;
        let ghost h = hashed_tracks(
            files@[i as int].tracks@,
            files@[i as int].tracks@.len() as int,
            bins@[i as int]@.len() as int,
        );
        hashes.append(&mut part);
        let ghost tagged = h.map_values(|x: (int, int, int)| (i as int, x.0, x.1, x.2));
        assert(all_hashed(files@, bins@, i + 1) == all_hashed(files@, bins@, i as int) + tagged);
        proof {
            let want = all_hashed(files@, bins@, i + 1);
            assert forall|k: int| 0 <= k < hashes@.len() implies {
                let (fi, ti, s, e) = want[k];
                track_hash_matches(#[trigger] hashes@[k], files@[fi].tracks@[ti], bins@[fi]@.subrange(s, e))
            } by {
                if k < prev.len() {
                    assert(hashes@[k] == prev[k]);
                    assert(want[k] == all_hashed(files@, bins@, i as int)[k]);
                } else {
                    let m = k - prev.len();
                    assert(hashes@[k] == p[m]);
                    assert(want[k] == tagged[m]);
                }
            }
        }
        let mut b: usize = 0;
        let ghost before = data@;
        while b < bin.len()
            invariant
                b <= bin.len(),
                data@ == before + bin@.take(b as int),
            decreases bin.len() - b,
        {
            data.push(bin[b]);
            b += 1;
            assert(data@ =~= before + bin@.take(b as int));
        }
        assert(bin@.take(b as int) =~= bin@);
        i += 1;
    }
    (data, hashes)
}

// ---------------------------------------------------------------------------
// Writing the enriched sheet
// ---------------------------------------------------------------------------

/// A CUE sheet with the analysis of its disc and tracks.
pub struct EnrichedCue {
    pub cue: CueSheet,
    pub disc_analysis: DiscAnalysis,
    /// Track number and analysis, at most one entry per number.
    pub track_analyses: Vec<(String, TrackAnalysis)>,
}

/// The analysis recorded for a track number: the first entry with that number.
pub open spec fn spec_lookup(v: Seq<(String, TrackAnalysis)>, key: Seq<char>) -> Option<(Seq<char>, usize)>
    decreases v.len(),
{
    if v.len() == 0 {
        None
    } else if v[0].0@ == key {
        Some((v[0].1.sha1@, v[0].1.size))
    } else {
        spec_lookup(v.drop_first(), key)
    }
}

/// No track number has two entries.
pub open spec fn analyses_distinct(v: Seq<(String, TrackAnalysis)>) -> bool {
    forall|i: int, j: int| 0 <= i < j < v.len() ==> #[trigger] v[i].0@ != #[trigger] v[j].0@
}

impl EnrichedCue {
    /// The sheet's well-formedness: one analysis per track number.
    pub open spec fn wf(self) -> bool {
        analyses_distinct(self.track_analyses@)
    }

    /// A sheet with nothing analysed yet.
    pub fn new(cue: CueSheet) -> (r: EnrichedCue)
        ensures
            r.cue == cue,
            analysis_view(r.disc_analysis) == (
                None::<Seq<char>>,
                None::<Seq<char>>,
                None::<Seq<char>>,
                None::<Seq<char>>,
                None::<Seq<char>>,
            ),
            r.track_analyses@.len() == 0,
            r.wf(),
    {
        EnrichedCue { cue, disc_analysis: DiscAnalysis::empty(), track_analyses: Vec::new() }
    }

    /// Record the analysis of a track, replacing an earlier one for the same number.
    pub fn insert_track_analysis(&mut self, number: String, analysis: TrackAnalysis)
        ensures
            spec_lookup(final(self).track_analyses@, number@) == Some((analysis.sha1@, analysis.size)),
            forall|k: Seq<char>| k != number@ ==> spec_lookup(final(self).track_analyses@, k)
                == spec_lookup(old(self).track_analyses@, k),
            final(self).cue == old(self).cue,
            final(self).disc_analysis == old(self).disc_analysis,
            old(self).wf() ==> final(self).wf(),
    {
        let ghost before = self.track_analyses@;
        let mut i: usize = 0;
        while i < self.track_analyses.len()
            invariant
                i <= self.track_analyses.len(),
                self.track_analyses@ == before,
                before == old(self).track_analyses@,
                self.cue == old(self).cue,
                self.disc_analysis == old(self).disc_analysis,
                forall|j: int| 0 <= j < i ==> #[trigger] before[j].0@ != number@,
            decreases self.track_analyses.len() - i,
        {
            if crate::text::str_eq(self.track_analyses[i].0.as_str(), number.as_str()) {
                let key = self.track_analyses[i].0.clone();
                self.track_analyses.set(i, (key, analysis));
                proof {
                    lemma_lookup_set(before, i as int, number@, self.track_analyses@);
                    let after = self.track_analyses@;
                    assert forall|a: int| 0 <= a < after.len() implies #[trigger] after[a].0@ == before[a].0@ by {
                        if a != i {
                            assert(after[a] == before[a]);
                        }
                    }
                }
                return;
            }
            i += 1;
        }
        self.track_analyses.push((number, analysis));
        proof {
            lemma_lookup_push(before, self.track_analyses@);
            let after = self.track_analyses@;
            assert forall|a: int| 0 <= a < before.len() implies #[trigger] after[a] == before[a] by {}
        }
    }
}

proof fn lemma_lookup_set(
    before: Seq<(String, TrackAnalysis)>,
    i: int,
    key: Seq<char>,
    after: Seq<(String, TrackAnalysis)>,
)
    requires
        0 <= i < before.len(),
        after.len() == before.len(),
        forall|j: int| 0 <= j < i ==> #[trigger] before[j].0@ != key,
        before[i].0@ == key,
        after[i].0@ == key,
        forall|j: int| 0 <= j < before.len() && j != i ==> #[trigger] after[j] == before[j],
    ensures
        spec_lookup(after, key) == Some((after[i].1.sha1@, after[i].1.size)),
        forall|k: Seq<char>| k != key ==> spec_lookup(after, k) == spec_lookup(before, k),
{
    lemma_lookup_set_key(before, i, key, after);
    assert forall|k: Seq<char>| k != key implies spec_lookup(after, k) == spec_lookup(before, k) by {
        lemma_lookup_set_other(before, i, key, after, k);
    }
}

proof fn lemma_lookup_set_key(
    before: Seq<(String, TrackAnalysis)>,
    i: int,
    key: Seq<char>,
    after: Seq<(String, TrackAnalysis)>,
)
    requires
        0 <= i < before.len(),
        after.len() == before.len(),
        forall|j: int| 0 <= j < i ==> #[trigger] before[j].0@ != key,
        after[i].0@ == key,
        forall|j: int| 0 <= j < before.len() && j != i ==> #[trigger] after[j] == before[j],
    ensures
        spec_lookup(after, key) == Some((after[i].1.sha1@, after[i].1.size)),
    decreases i,
{
    if i > 0 {
        assert(after[0] == before[0]);
        let a = after.drop_first();
        let b = before.drop_first();
        assert forall|j: int| 0 <= j < i - 1 implies #[trigger] b[j].0@ != key by {
            assert(b[j] == before[j + 1]);
        }
        assert forall|j: int| 0 <= j < b.len() && j != i - 1 implies #[trigger] a[j] == b[j] by {
            assert(a[j] == after[j + 1]);
            assert(b[j] == before[j + 1]);
        }
        assert(a[i - 1] == after[i]);
        lemma_lookup_set_key(b, i - 1, key, a);
    }
}

proof fn lemma_lookup_set_other(
    before: Seq<(String, TrackAnalysis)>,
    i: int,
    key: Seq<char>,
    after: Seq<(String, TrackAnalysis)>,
    k: Seq<char>,
)
    requires
        0 <= i < before.len(),
        after.len() == before.len(),
        before[i].0@ == key,
        after[i].0@ == key,
        k != key,
        forall|j: int| 0 <= j < before.len() && j != i ==> #[trigger] after[j] == before[j],
    ensures
        spec_lookup(after, k) == spec_lookup(before, k),
    decreases before.len(),
{
    let a = after.drop_first();
    let b = before.drop_first();
    if i > 0 {
        assert(after[0] == before[0]);
        assert forall|j: int| 0 <= j < b.len() && j != i - 1 implies #[trigger] a[j] == b[j] by {
            assert(a[j] == after[j + 1]);
            assert(b[j] == before[j + 1]);
        }
        assert(a[i - 1] == after[i]);
        assert(b[i - 1] == before[i]);
        lemma_lookup_set_other(b, i - 1, key, a, k);
    } else {
        assert(a =~= b) by {
            assert forall|j: int| 0 <= j < b.len() implies a[j] == b[j] by {
                assert(a[j] == after[j + 1]);
                assert(b[j] == before[j + 1]);
            }
        }
    }
}

proof fn lemma_lookup_push(before: Seq<(String, TrackAnalysis)>, after: Seq<(String, TrackAnalysis)>)
    requires
        after.len() == before.len() + 1,
        forall|j: int| 0 <= j < before.len() ==> #[trigger] after[j] == before[j],
        forall|j: int| 0 <= j < before.len() ==> #[trigger] before[j].0@ != after[before.len() as int].0@,
    ensures
        spec_lookup(after, after[before.len() as int].0@) == Some(
            (after[before.len() as int].1.sha1@, after[before.len() as int].1.size),
        ),
        forall|k: Seq<char>| k != after[before.len() as int].0@ ==> spec_lookup(after, k)
            == spec_lookup(before, k),
{
    lemma_lookup_push_key(before, after);
    assert forall|k: Seq<char>| k != after[before.len() as int].0@ implies spec_lookup(after, k)
        == spec_lookup(before, k) by {
        lemma_lookup_push_other(before, after, k);
    }
}

proof fn lemma_lookup_push_key(before: Seq<(String, TrackAnalysis)>, after: Seq<(String, TrackAnalysis)>)
    requires
        after.len() == before.len() + 1,
        forall|j: int| 0 <= j < before.len() ==> #[trigger] after[j] == before[j],
        forall|j: int| 0 <= j < before.len() ==> #[trigger] before[j].0@ != after[before.len() as int].0@,
    ensures
        spec_lookup(after, after[before.len() as int].0@) == Some(
            (after[before.len() as int].1.sha1@, after[before.len() as int].1.size),
        ),
    decreases before.len(),
{
    if before.len() > 0 {
        let a = after.drop_first();
        let b = before.drop_first();
        assert(after[0] == before[0]);
        assert(a[b.len() as int] == after[before.len() as int]);
        assert forall|j: int| 0 <= j < b.len() implies #[trigger] a[j] == b[j] by {
            assert(a[j] == after[j + 1]);
            assert(b[j] == before[j + 1]);
        }
        assert forall|j: int| 0 <= j < b.len() implies #[trigger] b[j].0@ != a[b.len() as int].0@ by {
            assert(b[j] == before[j + 1]);
        }
        lemma_lookup_push_key(b, a);
    }
}

proof fn lemma_lookup_push_other(
    before: Seq<(String, TrackAnalysis)>,
    after: Seq<(String, TrackAnalysis)>,
    k: Seq<char>,
)
    requires
        after.len() == before.len() + 1,
        forall|j: int| 0 <= j < before.len() ==> #[trigger] after[j] == before[j],
        k != after[before.len() as int].0@,
    ensures
        spec_lookup(after, k) == spec_lookup(before, k),
    decreases before.len(),
{
    let a = after.drop_first();
    let b = before.drop_first();
    if before.len() > 0 {
        assert(after[0] == before[0]);
        assert(a[b.len() as int] == after[before.len() as int]);
        assert forall|j: int| 0 <= j < b.len() implies #[trigger] a[j] == b[j] by {
            assert(a[j] == after[j + 1]);
            assert(b[j] == before[j + 1]);
        }
        lemma_lookup_push_other(b, a, k);
    } else {
        assert(after[0].0@ != k);
        assert(a.len() == 0);
        assert(spec_lookup(a, k) is None);
        assert(spec_lookup(before, k) is None);
    }
}


// ---------------------------------------------------------------------------
// The text of the sheet
// ---------------------------------------------------------------------------

/// `head`, the value and a line break, when there is a value.
pub open spec fn plain_line(head: Seq<char>, v: Option<Seq<char>>) -> Seq<char> {
    match v {
        Some(x) => head + x + "\n"@,
        None => Seq::empty(),
    }
}

/// `head` and the value escaped between quotes, when there is a value.
pub open spec fn quoted_line(head: Seq<char>, v: Option<Seq<char>>) -> Seq<char> {
    match v {
        Some(x) => head + "\""@ + spec_escape_quotes(x) + "\"\n"@,
        None => Seq::empty(),
    }
}

/// What ends a kept line: nothing when it already ends in a line break.
pub open spec fn line_end(u: Seq<char>) -> Seq<char> {
    if u.len() > 0 && u.last() == '\n' {
        Seq::empty()
    } else {
        "\n"@
    }
}

/// The indentation of a kept line.
pub open spec fn indent_of(indent: bool) -> Seq<char> {
    if indent {
        "    "@
    } else {
        Seq::empty()
    }
}

/// Lines the parser kept without understanding them, written back as they were.
pub open spec fn unknown_lines(indent: bool, us: Seq<String>) -> Seq<char>
    decreases us.len(),
{
    if us.len() == 0 {
        Seq::empty()
    } else {
        unknown_lines(indent, us.drop_last()) + indent_of(indent) + us.last()@ + line_end(
            us.last()@,
        )
    }
}

/// A gap line (`PREGAP`, `POSTGAP`) when the gap is there.
pub open spec fn gap_line(head: Seq<char>, v: Option<u64>) -> Seq<char> {
    match v {
        Some(f) => head + spec_timestamp(f as nat) + "\n"@,
        None => Seq::empty(),
    }
}

/// One `INDEX` line per index, in order.
pub open spec fn index_lines(ix: Seq<(String, u64)>) -> Seq<char>
    decreases ix.len(),
{
    if ix.len() == 0 {
        Seq::empty()
    } else {
        index_lines(ix.drop_last()) + "    INDEX "@ + ix.last().0@ + " "@ + spec_timestamp(
            ix.last().1 as nat,
        ) + "\n"@
    }
}

/// The `FLAGS` line, when the track has flags.
pub open spec fn flags_line(flags: Seq<String>) -> Seq<char> {
    if flags.len() > 0 {
        "    FLAGS "@ + join_with(string_seqs(flags), " "@) + "\n"@
    } else {
        Seq::empty()
    }
}

/// The digest and size lines of an analysed track.
pub open spec fn analysis_lines(a: Option<(Seq<char>, usize)>) -> Seq<char> {
    match a {
        Some((sha1, size)) => "    REM SHA1 "@ + sha1 + "\n"@ + "    REM SIZE "@ + spec_decimal(
            size as nat,
        ) + "\n"@,
        None => Seq::empty(),
    }
}

/// The text of one track.
pub open spec fn track_text(t: CueTrack, analyses: Seq<(String, TrackAnalysis)>) -> Seq<char> {
    "  TRACK "@ + t.no@ + " "@ + t.format@ + "\n"@ + quoted_line("    TITLE "@, opt_view(t.title))
        + quoted_line("    PERFORMER "@, opt_view(t.performer)) + quoted_line(
        "    SONGWRITER "@,
        opt_view(t.songwriter),
    ) + plain_line("    ISRC "@, opt_view(t.isrc)) + flags_line(t.flags@) + analysis_lines(
        spec_lookup(analyses, t.no@),
    ) + unknown_lines(true, t.unknown@) + gap_line("    PREGAP "@, t.pregap) + index_lines(
        t.indices@,
    ) + gap_line("    POSTGAP "@, t.postgap)
}

/// The text of a list of tracks.
pub open spec fn tracks_text(ts: Seq<CueTrack>, analyses: Seq<(String, TrackAnalysis)>) -> Seq<char>
    decreases ts.len(),
{
    if ts.len() == 0 {
        Seq::empty()
    } else {
        tracks_text(ts.drop_last(), analyses) + track_text(ts.last(), analyses)
    }
}

/// The text of one `FILE` entry and its tracks.
pub open spec fn file_text(f: CueSheetFile, analyses: Seq<(String, TrackAnalysis)>) -> Seq<char> {
    "FILE \""@ + spec_escape_quotes(f.file@) + "\" "@ + f.format@ + "\n"@ + tracks_text(
        f.tracks@,
        analyses,
    )
}

/// The text of a list of files.
pub open spec fn files_text(fs: Seq<CueSheetFile>, analyses: Seq<(String, TrackAnalysis)>) -> Seq<char>
    decreases fs.len(),
{
    if fs.len() == 0 {
        Seq::empty()
    } else {
        files_text(fs.drop_last(), analyses) + file_text(fs.last(), analyses)
    }
}

/// The sheet's title: its own, else the one found on the disc.
pub open spec fn sheet_title(e: EnrichedCue) -> Option<Seq<char>> {
    match e.cue.title {
        Some(t) => Some(t@),
        None => opt_view(e.disc_analysis.title),
    }
}

/// The lines before the first `FILE`: the disc analysis as REM lines, the
/// kept lines, then the sheet's own commands.
pub open spec fn header_text(e: EnrichedCue) -> Seq<char> {
    plain_line("REM CONSOLE "@, opt_view(e.disc_analysis.console)) + plain_line(
        "REM REGION "@,
        opt_view(e.disc_analysis.region),
    ) + quoted_line("REM SERIAL "@, opt_view(e.disc_analysis.product_code)) + plain_line(
        "REM SHA1 "@,
        opt_view(e.disc_analysis.disc_sha1),
    ) + unknown_lines(false, e.cue.unknown@) + plain_line("CATALOG "@, opt_view(e.cue.catalog))
        + quoted_line("CDTEXTFILE "@, opt_view(e.cue.cd_text_file)) + quoted_line(
        "PERFORMER "@,
        opt_view(e.cue.performer),
    ) + quoted_line("SONGWRITER "@, opt_view(e.cue.songwriter)) + quoted_line(
        "TITLE "@,
        sheet_title(e),
    )
}

/// The whole enriched sheet.
pub open spec fn spec_serialize(e: EnrichedCue) -> Seq<char> {
    header_text(e) + files_text(e.cue.files@, e.track_analyses@)
}

fn opt_str(v: &Option<String>) -> (r: Option<&str>)
    ensures
        match r {
            Some(x) => opt_view(*v) == Some(x@),
            None => v is None,
        },
{
    match v {
        Some(x) => Some(x.as_str()),
        None => None,
    }
}

fn push_plain_line(out: &mut Vec<char>, head: &str, v: Option<&str>)
    ensures
        final(out)@ == old(out)@ + plain_line(
            head@,
            match v {
                Some(x) => Some(x@),
                None => None,
            },
        ),
{
    if let Some(x) = v {
        let mut t: Vec<char> = Vec::new();
        append_str(&mut t, head);
        append_str(&mut t, x);
        append_str(&mut t, "\n");
        assert(t@ =~= head@ + x@ + "\n"@);
        append_chars(out, &t);
    } else {
        assert(old(out)@ + Seq::<char>::empty() =~= old(out)@);
    }
}

fn push_quoted_line(out: &mut Vec<char>, head: &str, v: Option<&str>)
    ensures
        final(out)@ == old(out)@ + quoted_line(
            head@,
            match v {
                Some(x) => Some(x@),
                None => None,
            },
        ),
{
    if let Some(x) = v {
        let e = escape_quotes(x);
        let mut t: Vec<char> = Vec::new();
        append_str(&mut t, head);
        append_str(&mut t, "\"");
        append_str(&mut t, e.as_str());
        append_str(&mut t, "\"\n");
        assert(t@ =~= head@ + "\""@ + spec_escape_quotes(x@) + "\"\n"@);
        append_chars(out, &t);
    } else {
        assert(old(out)@ + Seq::<char>::empty() =~= old(out)@);
    }
}

fn push_unknown_lines(out: &mut Vec<char>, indent: bool, us: &Vec<String>)
    ensures
        final(out)@ == old(out)@ + unknown_lines(indent, us@),
{
    let ghost start = out@;
    let mut i: usize = 0;
    while i < us.len()
        invariant
            i <= us.len(),
            out@ == start + unknown_lines(indent, us@.take(i as int)),
        decreases us.len() - i,
    {
        assert(us@.take(i + 1).drop_last() =~= us@.take(i as int));
        let u = chars_of(us[i].as_str());
        let mut t: Vec<char> = Vec::new();
        if indent {
            append_str(&mut t, "    ");
        }
        append_chars(&mut t, &u);
        if !(u.len() > 0 && u[u.len() - 1] == '\n') {
            append_str(&mut t, "\n");
        }
        assert(t@ =~= indent_of(indent) + us@[i as int]@ + line_end(us@[i as int]@));
        append_chars(out, &t);
        i += 1;
        assert(out@ =~= start + unknown_lines(indent, us@.take(i as int)));
    }
    assert(us@.take(i as int) =~= us@);
}

fn push_gap_line(out: &mut Vec<char>, head: &str, v: Option<u64>)
    ensures
        final(out)@ == old(out)@ + gap_line(head@, v),
{
    if let Some(f) = v {
        let mut t: Vec<char> = Vec::new();
        append_str(&mut t, head);
        push_timestamp(&mut t, f);
        append_str(&mut t, "\n");
        assert(t@ =~= head@ + spec_timestamp(f as nat) + "\n"@);
        append_chars(out, &t);
    } else {
        assert(old(out)@ + Seq::<char>::empty() =~= old(out)@);
    }
}

fn push_index_lines(out: &mut Vec<char>, ix: &Vec<(String, u64)>)
    ensures
        final(out)@ == old(out)@ + index_lines(ix@),
{
    let ghost start = out@;
    let mut i: usize = 0;
    while i < ix.len()
        invariant
            i <= ix.len(),
            out@ == start + index_lines(ix@.take(i as int)),
        decreases ix.len() - i,
    {
        assert(ix@.take(i + 1).drop_last() =~= ix@.take(i as int));
        let mut t: Vec<char> = Vec::new();
        append_str(&mut t, "    INDEX ");
        append_str(&mut t, ix[i].0.as_str());
        append_str(&mut t, " ");
        push_timestamp(&mut t, ix[i].1);
        append_str(&mut t, "\n");
        assert(t@ =~= "    INDEX "@ + ix@[i as int].0@ + " "@ + spec_timestamp(ix@[i as int].1 as nat)
            + "\n"@);
        append_chars(out, &t);
        i += 1;
        assert(out@ =~= start + index_lines(ix@.take(i as int)));
    }
    assert(ix@.take(i as int) =~= ix@);
}

fn push_flags_line(out: &mut Vec<char>, flags: &Vec<String>)
    ensures
        final(out)@ == old(out)@ + flags_line(flags@),
{
    if flags.len() > 0 {
        let mut parts: Vec<Vec<char>> = Vec::new();
        let mut i: usize = 0;
        while i < flags.len()
            invariant
                i <= flags.len(),
                parts@.len() == i,
                forall|j: int| 0 <= j < i ==> #[trigger] parts@[j]@ == flags@[j]@,
            decreases flags.len() - i,
        {
            parts.push(chars_of(flags[i].as_str()));
            i += 1;
        }
        assert(char_seqs(parts@) =~= string_seqs(flags@));
        let joined = join_chars(&parts, " ");
        let mut t: Vec<char> = Vec::new();
        append_str(&mut t, "    FLAGS ");
        append_chars(&mut t, &joined);
        append_str(&mut t, "\n");
        assert(t@ =~= flags_line(flags@));
        append_chars(out, &t);
    } else {
        assert(old(out)@ + Seq::<char>::empty() =~= old(out)@);
    }
}

/// Where the first entry for `key` stands, if there is one.
fn find_analysis(v: &Vec<(String, TrackAnalysis)>, key: &str) -> (r: Option<usize>)
    ensures
        match r {
            Some(i) => i < v@.len() && spec_lookup(v@, key@) == Some(
                (v@[i as int].1.sha1@, v@[i as int].1.size),
            ),
            None => spec_lookup(v@, key@) is None,
        },
{
    let mut i: usize = 0;
    assert(v@.skip(0) =~= v@);
    while i < v.len()
        invariant
            i <= v.len(),
            spec_lookup(v@, key@) == spec_lookup(v@.skip(i as int), key@),
        decreases v.len() - i,
    {
        assert(v@.skip(i as int).drop_first() =~= v@.skip(i + 1));
        assert(v@.skip(i as int)[0] == v@[i as int]);
        if crate::text::str_eq(v[i].0.as_str(), key) {
            return Some(i);
        }
        i += 1;
    }
    None
}

fn push_analysis_lines(out: &mut Vec<char>, v: &Vec<(String, TrackAnalysis)>, key: &str)
    ensures
        final(out)@ == old(out)@ + analysis_lines(spec_lookup(v@, key@)),
{
    match find_analysis(v, key) {
        Some(i) => {
            let a = &v[i].1;
            let mut t: Vec<char> = Vec::new();
            append_str(&mut t, "    REM SHA1 ");
            append_str(&mut t, a.sha1.as_str());
            append_str(&mut t, "\n");
            append_str(&mut t, "    REM SIZE ");
            let d = decimal_chars(a.size as u64);
            append_chars(&mut t, &d);
            append_str(&mut t, "\n");
            assert(t@ =~= analysis_lines(spec_lookup(v@, key@)));
            append_chars(out, &t);
        },
        None => {
            assert(old(out)@ + Seq::<char>::empty() =~= old(out)@);
        },
    }
}

impl EnrichedCue {
    fn serialize_track(&self, track: &CueTrack, output: &mut Vec<char>)
        ensures
            final(output)@ == old(output)@ + track_text(*track, self.track_analyses@),
    {
        let mut t: Vec<char> = Vec::new();
        append_str(&mut t, "  TRACK ");
        append_str(&mut t, track.no.as_str());
        append_str(&mut t, " ");
        append_str(&mut t, track.format.as_str());
        append_str(&mut t, "\n");
        push_quoted_line(&mut t, "    TITLE ", opt_str(&track.title));
        push_quoted_line(&mut t, "    PERFORMER ", opt_str(&track.performer));
        push_quoted_line(&mut t, "    SONGWRITER ", opt_str(&track.songwriter));
        push_plain_line(&mut t, "    ISRC ", opt_str(&track.isrc));
        push_flags_line(&mut t, &track.flags);
        push_analysis_lines(&mut t, &self.track_analyses, track.no.as_str());
        push_unknown_lines(&mut t, true, &track.unknown);
        push_gap_line(&mut t, "    PREGAP ", track.pregap);
        push_index_lines(&mut t, &track.indices);
        push_gap_line(&mut t, "    POSTGAP ", track.postgap);
        assert(t@ =~= track_text(*track, self.track_analyses@));
        append_chars(output, &t);
    }

    fn serialize_file(&self, file: &CueSheetFile, output: &mut Vec<char>)
        ensures
            final(output)@ == old(output)@ + file_text(*file, self.track_analyses@),
    {
        let mut t: Vec<char> = Vec::new();
        let e = escape_quotes(file.file.as_str());
        append_str(&mut t, "FILE \"");
        append_str(&mut t, e.as_str());
        append_str(&mut t, "\" ");
        append_str(&mut t, file.format.as_str());
        append_str(&mut t, "\n");
        let ghost head = t@;
        let mut i: usize = 0;
        while i < file.tracks.len()
            invariant
                i <= file.tracks.len(),
                t@ == head + tracks_text(file.tracks@.take(i as int), self.track_analyses@),
            decreases file.tracks.len() - i,
        {
            assert(file.tracks@.take(i + 1).drop_last() =~= file.tracks@.take(i as int));
            self.serialize_track(&file.tracks[i], &mut t);
            i += 1;
            assert(t@ =~= head + tracks_text(file.tracks@.take(i as int), self.track_analyses@));
        }
        assert(file.tracks@.take(i as int) =~= file.tracks@);
        assert(t@ =~= file_text(*file, self.track_analyses@));
        append_chars(output, &t);
    }

    /// The sheet as CUE text: the disc analysis as REM lines, the sheet's
    /// own lines, then every file and track, each analysed track with its
    /// digest and size.
    #[verifier::rlimit(30)]
    pub fn serialize(&self) -> (r: String)
        ensures
            r@ == spec_serialize(*self),
    {
        let mut t: Vec<char> = Vec::new();
        push_plain_line(&mut t, "REM CONSOLE ", opt_str(&self.disc_analysis.console));
        push_plain_line(&mut t, "REM REGION ", opt_str(&self.disc_analysis.region));
        push_quoted_line(&mut t, "REM SERIAL ", opt_str(&self.disc_analysis.product_code));
        push_plain_line(&mut t, "REM SHA1 ", opt_str(&self.disc_analysis.disc_sha1));
        push_unknown_lines(&mut t, false, &self.cue.unknown);
        push_plain_line(&mut t, "CATALOG ", opt_str(&self.cue.catalog));
        push_quoted_line(&mut t, "CDTEXTFILE ", opt_str(&self.cue.cd_text_file));
        push_quoted_line(&mut t, "PERFORMER ", opt_str(&self.cue.performer));
        push_quoted_line(&mut t, "SONGWRITER ", opt_str(&self.cue.songwriter));
        let title = match &self.cue.title {
            Some(x) => Some(x.as_str()),
            None => opt_str(&self.disc_analysis.title),
        };
        push_quoted_line(&mut t, "TITLE ", title);
        assert(t@ =~= header_text(*self));
        let ghost head = t@;
        let mut i: usize = 0;
        while i < self.cue.files.len()
            invariant
                i <= self.cue.files.len(),
                t@ == head + files_text(self.cue.files@.take(i as int), self.track_analyses@),
            decreases self.cue.files.len() - i,
        {
            assert(self.cue.files@.take(i + 1).drop_last() =~= self.cue.files@.take(i as int));
            self.serialize_file(&self.cue.files[i], &mut t);
            i += 1;
            assert(t@ =~= head + files_text(self.cue.files@.take(i as int), self.track_analyses@));
        }
        assert(self.cue.files@.take(i as int) =~= self.cue.files@);
        assert(t@ =~= spec_serialize(*self));
        string_from_chars(&t)
    }
}


impl EnrichedCue {
    /// The analysis recorded for a track number.
    pub fn track_analysis(&self, number: &str) -> (r: Option<&TrackAnalysis>)
        ensures
            match r {
                Some(a) => spec_lookup(self.track_analyses@, number@) == Some((a.sha1@, a.size)),
                None => spec_lookup(self.track_analyses@, number@) is None,
            },
    {
        match find_analysis(&self.track_analyses, number) {
            Some(i) => Some(&self.track_analyses[i].1),
            None => None,
        }
    }
}

/// The analysis that the digests give a track number: upper-case SHA-1 and
/// size of the last digest record with that number.
pub open spec fn last_hash_for(h: Seq<TrackHash>, k: Seq<char>) -> Option<(Seq<char>, usize)>
    decreases h.len(),
{
    if h.len() == 0 {
        None
    } else if h.last().number@ == k {
        Some((spec_hex(h.last().sha1@, true), h.last().size))
    } else {
        last_hash_for(h.drop_last(), k)
    }
}

/// The sheet with the disc's analysis and, for every digested track, its
/// SHA-1 and size; a number digested twice keeps the later record.
pub fn enrich_cue(cue: CueSheet, disc_analysis: DiscAnalysis, hashes: &Vec<TrackHash>) -> (r: EnrichedCue)
    ensures
        r.cue == cue,
        r.disc_analysis == disc_analysis,
        r.wf(),
        forall|k: Seq<char>| #[trigger] spec_lookup(r.track_analyses@, k) == last_hash_for(hashes@, k),
{
    let mut e = EnrichedCue::new(cue);
    e.disc_analysis = disc_analysis;
    let mut i: usize = 0;
    while i < hashes.len()
        invariant
            i <= hashes.len(),
            e.cue == cue,
            e.disc_analysis == disc_analysis,
            e.wf(),
            forall|k: Seq<char>| #[trigger] spec_lookup(e.track_analyses@, k) == last_hash_for(
                hashes@.take(i as int),
                k,
            ),
        decreases hashes.len() - i,
    {
        let h = &hashes[i];
        let a = TrackAnalysis { sha1: format_sha1(&h.sha1), size: h.size };
        let ghost before = e.track_analyses@;
        e.insert_track_analysis(h.number.clone(), a);
        proof {
            let t = hashes@.take(i + 1);
            assert(t.drop_last() =~= hashes@.take(i as int));
            assert(t.last() == hashes@[i as int]);
            assert forall|k: Seq<char>| #[trigger]
                spec_lookup(e.track_analyses@, k) == last_hash_for(t, k) by {
                if k != h.number@ {
                    assert(spec_lookup(e.track_analyses@, k) == spec_lookup(before, k));
                }
            }
        }
        i += 1;
    }
    assert(hashes@.take(i as int) =~= hashes@);
    e
}

/// The number a pair of decimal digit characters stands for.
pub open spec fn two_digits(s: Seq<char>, i: int) -> int {
    (s[i] as u32 - 48) * 10 + (s[i + 1] as u32 - 48)
}

proof fn lemma_pad2_reads_back(n: nat)
    requires
        n < 100,
    ensures
        pad2(n).len() == 2,
        two_digits(pad2(n), 0) == n,
{
    if n < 10 {
        crate::text::lemma_digit_char_value(n);
        assert(spec_decimal(n) =~= seq![crate::text::digit_char(n)]);
        assert(pad2(n) =~= seq!['0', crate::text::digit_char(n)]);
    } else {
        crate::text::lemma_digit_char_value(n / 10);
        crate::text::lemma_digit_char_value(n % 10);
        assert(spec_decimal(n / 10) =~= seq![crate::text::digit_char(n / 10)]);
        assert(pad2(n) =~= seq![crate::text::digit_char(n / 10), crate::text::digit_char(n % 10)]);
    }
}

/// A time written as `MM:SS:FF` reads back as the same number of frames,
/// for every time under 100 minutes.
pub proof fn law_timestamp_reads_back(f: nat)
    requires
        f < 100 * 60 * 75,
    ensures
        spec_timestamp(f).len() == 8,
        spec_timestamp(f)[2] == ':',
        spec_timestamp(f)[5] == ':',
        (two_digits(spec_timestamp(f), 0) * 60 + two_digits(spec_timestamp(f), 3)) * 75 + two_digits(
            spec_timestamp(f),
            6,
        ) == f,
{
    let m = f / 75 / 60;
    let sec = (f / 75) % 60;
    let fr = f % 75;
    lemma_pad2_reads_back(m);
    lemma_pad2_reads_back(sec);
    lemma_pad2_reads_back(fr);
    let t = spec_timestamp(f);
    assert(t =~= pad2(m) + seq![':'] + pad2(sec) + seq![':'] + pad2(fr));
    assert(two_digits(t, 0) == two_digits(pad2(m), 0));
    assert(two_digits(t, 3) == two_digits(pad2(sec), 0));
    assert(two_digits(t, 6) == two_digits(pad2(fr), 0));
}

/// Every digested track is digested once, in sheet order, over a non-empty
/// range that lies within the file's data.
pub proof fn law_hashed_ranges_within(tracks: Seq<CueTrack>, n: int, len: int)
    requires
        0 <= n <= tracks.len(),
        0 <= len,
    ensures
        forall|k: int|
            0 <= k < hashed_tracks(tracks, n, len).len() ==> {
                let (i, s, e) = #[trigger] hashed_tracks(tracks, n, len)[k];
                0 <= i < n && 0 <= s < e <= len
            },
        forall|a: int, b: int|
            0 <= a < b < hashed_tracks(tracks, n, len).len() ==> (#[trigger] hashed_tracks(
                tracks,
                n,
                len,
            )[a]).0 < (#[trigger] hashed_tracks(tracks, n, len)[b]).0,
    decreases n,
{
    if n > 0 {
        law_hashed_ranges_within(tracks, n - 1, len);
        let r = hashed_tracks(tracks, n - 1, len);
        let h = hashed_tracks(tracks, n, len);
        if h.len() > r.len() {
            assert(h == r.push(h[r.len() as int]));
            assert(forall|k: int| 0 <= k < r.len() ==> h[k] == r[k]);
        } else {
            assert(h == r);
        }
    }
}

} // verus!
