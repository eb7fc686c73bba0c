//! XML DAT catalogues (Logiqx and MAME flavours): game names, metadata,
//! ROM entries and the catalogue text.

use crate::ext::{spec_crc32, spec_md5, spec_sha1, spec_sha256, string_from_chars};
use crate::text::chars_of;
use crate::output::cue::{pad2, TrackHash};
use crate::output::hash::{compute_hashes, hex_byte_texts, hex_upper_spaced, u32_be_bytes, Hashes};
use crate::systems::registry::{
    detected_matches, spec_console_name, spec_dat_meta_of, spec_detect_defined_from, spec_detect_from, spec_system_of, DetectedRom,
};
use crate::text::{append_chars, append_str, decimal_chars, join_with, spec_decimal, spec_hex};
use crate::traits::{opt_view, DatMeta, RomInfo};
use vstd::prelude::*;

verus! {

/// One `<rom>` of a game.
pub struct RomEntry {
    pub name: String,
    pub size: usize,
    pub hashes: Hashes,
    pub header: Option<[u8; 16]>,
    pub serial: Option<String>,
}

/// A `<release>` element: a game name released in a region.
pub struct ReleaseEntry {
    pub region: String,
    pub date: Option<String>,
}

/// One `<game>` (or `<machine>`) of a catalogue.
pub struct GameEntry {
    pub name: String,
    pub description: String,
    /// Text of the `<year>` element (e.g. "1995").
    pub year: Option<String>,
    /// Publisher, for the `<manufacturer>` element.
    pub manufacturer: Option<String>,
    /// Zero or more `<release>` elements.
    pub releases: Vec<ReleaseEntry>,
    pub roms: Vec<RomEntry>,
    /// Console name, written as an XML comment.
    pub system: Option<String>,
}

/// What detection tells of a game, before its ROMs are added.
pub struct GameMetadata {
    pub name: String,
    pub description: String,
    pub year: Option<String>,
    pub manufacturer: Option<String>,
    pub releases: Vec<ReleaseEntry>,
    pub system: Option<String>,
    pub serial: Option<String>,
}

// ---------------------------------------------------------------------------
// Names and metadata
// ---------------------------------------------------------------------------

/// The text of an optional string slice.
pub open spec fn str_opt(o: Option<&str>) -> Option<Seq<char>> {
    match o {
        Some(x) => Some(x@),
        None => None,
    }
}

/// ` (x)` when there is an `x`.
pub open spec fn paren(v: Option<Seq<char>>) -> Seq<char> {
    match v {
        Some(x) => " ("@ + x + ")"@,
        None => Seq::empty(),
    }
}

/// `{title} ({region}) ({version})`, each absent piece left out; the stem
/// stands in for a missing or empty title.
pub open spec fn spec_game_name(
    stem: Seq<char>,
    title: Option<Seq<char>>,
    region: Option<Seq<char>>,
    version: Option<Seq<char>>,
) -> Seq<char> {
    let base = match title {
        Some(t) => if t.len() > 0 {
            t
        } else {
            stem
        },
        None => stem,
    };
    base + paren(region) + paren(version)
}

fn push_paren(out: &mut Vec<char>, v: Option<&str>)
    ensures
        final(out)@ == old(out)@ + paren(str_opt(v)),
{
    if let Some(x) = v {
        let mut t: Vec<char> = Vec::new();
        append_str(&mut t, " (");
        append_str(&mut t, x);
        append_str(&mut t, ")");
        assert(t@ =~= " ("@ + x@ + ")"@);
        append_chars(out, &t);
    } else {
        assert(old(out)@ + Seq::<char>::empty() =~= old(out)@);
    }
}

/// The canonical game name for `<game name="">`.
pub fn build_game_name(stem: &str, title: Option<&str>, region: Option<&str>, version: Option<&str>) -> (r: String)
    ensures
        r@ == spec_game_name(stem@, str_opt(title), str_opt(region), str_opt(version)),
{
    let base: &str = match title {
        Some(t) => if !t.is_empty() {
            t
        } else {
            stem
        },
        None => stem,
    };
    let mut out = chars_of(base);
    push_paren(&mut out, region);
    push_paren(&mut out, version);
    string_from_chars(&out)
}

/// Bytes that a character takes in UTF-8.
pub open spec fn utf8_len(c: char) -> int {
    if (c as u32) < 0x80 {
        1
    } else if (c as u32) < 0x800 {
        2
    } else if (c as u32) < 0x10000 {
        3
    } else {
        4
    }
}

/// Bytes that the first `k` characters take in UTF-8.
pub open spec fn utf8_len_upto(s: Seq<char>, k: int) -> int
    decreases k,
{
    if k <= 0 {
        0
    } else {
        utf8_len_upto(s, k - 1) + utf8_len(s[k - 1])
    }
}

/// The first `n` bytes of the text, when `n` falls on a character boundary
/// within it (`str::get(..n)`).
pub open spec fn spec_str_prefix(s: Seq<char>, n: int) -> Option<Seq<char>> {
    if exists|k: int| 0 <= k <= s.len() && #[trigger] utf8_len_upto(s, k) == n {
        Some(s.take(choose|k: int| 0 <= k <= s.len() && #[trigger] utf8_len_upto(s, k) == n))
    } else {
        None
    }
}

proof fn lemma_utf8_len_upto_grows(s: Seq<char>, a: int, b: int)
    requires
        0 <= a < b,
    ensures
        utf8_len_upto(s, a) < utf8_len_upto(s, b),
    decreases b,
{
    if a < b - 1 {
        lemma_utf8_len_upto_grows(s, a, b - 1);
    }
}

fn utf8_width(c: char) -> (r: usize)
    ensures
        r == utf8_len(c),
{
    let v = c as u32;
    if v < 0x80 {
        1
    } else if v < 0x800 {
        2
    } else if v < 0x10000 {
        3
    } else {
        4
    }
}

/// The first `n` bytes of `s` as text, when `n` is a character boundary.
pub fn str_prefix(s: &str, n: usize) -> (r: Option<String>)
    ensures
        opt_view(r) == spec_str_prefix(s@, n as int),
{
    let v = chars_of(s);
    let mut i: usize = 0;
    let mut used: u128 = 0;
    while i < v.len() && used < n as u128
        invariant
            v@ == s@,
            i <= v.len(),
            used <= 4 * i,
            used == utf8_len_upto(s@, i as int),
            forall|k: int| 0 <= k < i ==> #[trigger] utf8_len_upto(s@, k) < n,
        decreases v.len() - i,
    {
        let w = utf8_width(v[i]);
        used = used + w as u128;
        i += 1;
    }
    if used == n as u128 {
        proof {
            assert forall|k: int| 0 <= k <= s@.len() && #[trigger] utf8_len_upto(s@, k) == n implies k
                == i by {
                if k < i {
                } else if k > i {
                    lemma_utf8_len_upto_grows(s@, i as int, k);
                }
            }
        }
        let mut p: Vec<char> = Vec::new();
        let mut j: usize = 0;
        while j < i
            invariant
                j <= i <= v.len(),
                p@ == v@.take(j as int),
            decreases i - j,
        {
            p.push(v[j]);
            j += 1;
            assert(p@ =~= v@.take(j as int));
        }
        Some(string_from_chars(&p))
    } else {
        proof {
            assert forall|k: int| 0 <= k <= s@.len() implies #[trigger] utf8_len_upto(s@, k) != n by {
                if k > i {
                    lemma_utf8_len_upto_grows(s@, i as int, k);
                }
            }
        }
        None
    }
}

/// The texts of the releases: region and date of each.
pub open spec fn releases_view(v: Seq<ReleaseEntry>) -> Seq<(Seq<char>, Option<Seq<char>>)> {
    v.map_values(|r: ReleaseEntry| (r.region@, opt_view(r.date)))
}

/// The metadata of a game whose header gave `m` (title, region, version,
/// date, manufacturer, serial, machine id) and whose console is `system`:
/// the game name is the machine id, else the description; one release per
/// region; the year is the first four bytes of the date.
pub open spec fn metadata_matches(
    r: GameMetadata,
    stem: Seq<char>,
    m: (
        Option<Seq<char>>,
        Option<Seq<char>>,
        Option<Seq<char>>,
        Option<Seq<char>>,
        Option<Seq<char>>,
        Option<Seq<char>>,
        Option<Seq<char>>,
    ),
    system: Option<Seq<char>>,
) -> bool {
    let (title, region, version, date, manufacturer, serial, machine_id) = m;
    &&& r.description@ == spec_game_name(stem, title, region, version)
    &&& r.name@ == match machine_id {
        Some(id) => id,
        None => r.description@,
    }
    &&& opt_view(r.year) == match date {
        Some(d) => spec_str_prefix(d, 4),
        None => None,
    }
    &&& opt_view(r.manufacturer) == manufacturer
    &&& releases_view(r.releases@) == match region {
        Some(g) => seq![(g, date)],
        None => Seq::empty(),
    }
    &&& opt_view(r.system) == system
    &&& opt_view(r.serial) == serial
}

fn clone_opt(v: &Option<String>) -> (r: Option<String>)
    ensures
        opt_view(r) == opt_view(*v),
{
    match v {
        Some(x) => Some(x.clone()),
        None => None,
    }
}

fn as_opt_str(v: &Option<String>) -> (r: Option<&str>)
    ensures
        str_opt(r) == opt_view(*v),
{
    match v {
        Some(x) => Some(x.as_str()),
        None => None,
    }
}

/// The metadata of a game from what its header gave.
pub fn game_metadata_from_dat_meta(stem: &str, meta: DatMeta, system: Option<String>) -> (r: GameMetadata)
    ensures
        metadata_matches(r, stem@, crate::traits::meta_view(meta), opt_view(system)),
{
    let description = build_game_name(
        stem,
        as_opt_str(&meta.title),
        as_opt_str(&meta.region),
        as_opt_str(&meta.version),
    );
    let name = match &meta.machine_id {
        Some(id) => id.clone(),
        None => description.clone(),
    };
    let mut releases: Vec<ReleaseEntry> = Vec::new();
    if let Some(r) = &meta.region {
        releases.push(ReleaseEntry { region: r.clone(), date: clone_opt(&meta.date) });
    }
    let year = match &meta.date {
        Some(d) => str_prefix(d.as_str(), 4),
        None => None,
    };
    let r = GameMetadata {
        name,
        description,
        year,
        manufacturer: meta.manufacturer,
        releases,
        system,
        serial: meta.serial,
    };
    assert(releases_view(r.releases@) =~= match opt_view(meta.region) {
        Some(g) => seq![(g, opt_view(meta.date))],
        None => Seq::empty(),
    });
    r
}

/// The metadata of raw ROM or disc data: what the detected system's header
/// gives, with its console; plain metadata from the stem when no system is
/// recognised.
pub fn detect_game_metadata(stem: &str, data: &[u8]) -> (r: GameMetadata)
    requires
        spec_detect_defined_from(data@, 0, false),
    ensures
        spec_detect_from(data@, 0, false) is None ==> metadata_matches(
            r,
            stem@,
            (None, None, None, None, None, None, None),
            None,
        ),
        spec_detect_from(data@, 0, false) is Some ==> exists|d: DetectedRom|
            spec_detect_from(data@, 0, false) == Some(spec_system_of(d)) && detected_matches(data@, d)
                && #[trigger] metadata_matches(r, stem@, spec_dat_meta_of(d), Some(spec_console_name(d))),
{
    match crate::systems::detect_rom(data) {
        Some(info) => {
            let system = string_from_chars(&chars_of(info.console()));
            let meta = info.dat_meta();
            let r = game_metadata_from_dat_meta(stem, meta, Some(system));
            assert(metadata_matches(r, stem@, spec_dat_meta_of(info), Some(spec_console_name(info))));
            r
        },
        None => game_metadata_from_dat_meta(stem, DatMeta::empty(), None),
    }
}

/// A game entry from its metadata and ROMs.
pub fn game_entry(metadata: GameMetadata, roms: Vec<RomEntry>) -> (r: GameEntry)
    ensures
        r.name == metadata.name,
        r.description == metadata.description,
        r.year == metadata.year,
        r.manufacturer == metadata.manufacturer,
        r.releases == metadata.releases,
        r.roms == roms,
        r.system == metadata.system,
{
    GameEntry {
        name: metadata.name,
        description: metadata.description,
        year: metadata.year,
        manufacturer: metadata.manufacturer,
        releases: metadata.releases,
        roms,
        system: metadata.system,
    }
}

// ---------------------------------------------------------------------------
// ROM entries
// ---------------------------------------------------------------------------

/// The data starts with an iNES header: at least 16 bytes, `NES\x1A` first.
pub open spec fn has_nes_header(d: Seq<u8>) -> bool {
    d.len() >= 16 && d[0] == 0x4E && d[1] == 0x45 && d[2] == 0x53 && d[3] == 0x1A
}

/// The 16-byte iNES header of the data, when it has one.
pub fn nes_header(data: &[u8]) -> (r: Option<[u8; 16]>)
    ensures
        match r {
            Some(h) => has_nes_header(data@) && h@ == data@.take(16),
            None => !has_nes_header(data@),
        },
{
    if data.len() >= 16 && data[0] == 0x4E && data[1] == 0x45 && data[2] == 0x53 && data[3] == 0x1A {
        let mut h = [0u8; 16];
        let mut i: usize = 0;
        while i < 16
            invariant
                data.len() >= 16,
                i <= 16,
                h@.len() == 16,
                forall|j: int| 0 <= j < i ==> h@[j] == data@[j],
            decreases 16 - i,
        {
            h[i] = data[i];
            i += 1;
        }
        assert(h@ =~= data@.take(16));
        Some(h)
    } else {
        None
    }
}

/// The digests of the data.
pub open spec fn hashes_of(h: Hashes, d: Seq<u8>) -> bool {
    &&& h.crc32 == spec_crc32(d)
    &&& h.md5@ == spec_md5(d)
    &&& h.sha1@ == spec_sha1(d)
    &&& h.sha256@ == spec_sha256(d)
}

/// The entry of a ROM file: its name, size, digests, iNES header and serial.
pub fn rom_entry(name: String, data: &[u8], serial: Option<String>) -> (r: RomEntry)
    ensures
        r.name == name,
        r.size == data@.len(),
        hashes_of(r.hashes, data@),
        match r.header {
            Some(h) => has_nes_header(data@) && h@ == data@.take(16),
            None => !has_nes_header(data@),
        },
        r.serial == serial,
{
    RomEntry { name, size: data.len(), hashes: compute_hashes(data), header: nes_header(data), serial }
}

/// The value of a run of decimal digits.
pub open spec fn digits_value(s: Seq<char>) -> nat
    decreases s.len(),
{
    if s.len() == 0 {
        0
    } else {
        digits_value(s.drop_last()) * 10 + ((s.last() as u32) - 48) as nat
    }
}

/// Every character is an ASCII digit.
pub open spec fn all_digits(s: Seq<char>) -> bool {
    forall|i: int| 0 <= i < s.len() ==> '0' <= #[trigger] s[i] && s[i] <= '9'
}

/// A decimal `u32` (`str::parse::<u32>`): ASCII digits after an optional
/// `+`, and a value that fits.
pub open spec fn spec_parse_u32(s: Seq<char>) -> Option<u32> {
    let body = if s.len() > 1 && s[0] == '+' {
        s.skip(1)
    } else {
        s
    };
    if body.len() > 0 && all_digits(body) && digits_value(body) <= u32::MAX {
        Some(digits_value(body) as u32)
    } else {
        None
    }
}

/// A decimal `u32`, when the text is one.
pub fn parse_u32(s: &str) -> (r: Option<u32>)
    ensures
        r == spec_parse_u32(s@),
{
    let v = chars_of(s);
    let start: usize = if v.len() > 1 && v[0] == '+' {
        1
    } else {
        0
    };
    let ghost body = if s@.len() > 1 && s@[0] == '+' {
        s@.skip(1)
    } else {
        s@
    };
    assert(body =~= v@.skip(start as int));
    if start >= v.len() {
        return None;
    }
    let mut i: usize = start;
    let mut value: u64 = 0;
    while i < v.len()
        invariant
            v@ == s@,
            start <= i <= v.len(),
            start < v.len(),
            body == v@.skip(start as int),
            body == (if s@.len() > 1 && s@[0] == '+' {
                s@.skip(1)
            } else {
                s@
            }),
            all_digits(v@.subrange(start as int, i as int)),
            value == digits_value(v@.subrange(start as int, i as int)),
            value <= u32::MAX,
        decreases v.len() - i,
    {
        let c = v[i];
        assert(v@.subrange(start as int, i + 1).drop_last() =~= v@.subrange(start as int, i as int));
        if !('0' <= c && c <= '9') {
            assert(body[i - start] == c);
            return None;
        }
        let d = (c as u32 - 48) as u64;
        let next = value * 10 + d;
        if next > 0xFFFF_FFFF {
            proof {
                assert(body.take(i - start + 1) =~= v@.subrange(start as int, i + 1));
                if all_digits(body) {
                    lemma_digits_value_prefix(body, i - start + 1);
                }
            }
            return None;
        }
        value = next;
        i += 1;
    }
    assert(v@.subrange(start as int, i as int) =~= body);
    Some(value as u32)
}

/// A longer run of digits is worth at least as much as its prefix.
proof fn lemma_digits_value_prefix(s: Seq<char>, k: int)
    requires
        0 <= k <= s.len(),
        all_digits(s),
    ensures
        digits_value(s.take(k)) <= digits_value(s),
    decreases s.len() - k,
{
    if k < s.len() {
        lemma_digits_value_prefix(s, k + 1);
        assert(s.take(k + 1).drop_last() =~= s.take(k));
        assert('0' <= s[k]);
        assert(digits_value(s.take(k)) <= digits_value(s.take(k)) * 10) by (nonlinear_arith);
    } else {
        assert(s.take(k) =~= s);
    }
}

/// The ROM name of a track: `Track NN.bin`, its number with two digits at
/// least (0 where the number does not parse).
pub open spec fn track_rom_name(number: Seq<char>) -> Seq<char> {
    let n = match spec_parse_u32(number) {
        Some(v) => v as nat,
        None => 0,
    };
    "Track "@ + pad2(n) + ".bin"@
}

/// The ROM entry of the `i`-th digested track of a disc.
pub open spec fn track_rom_matches(r: RomEntry, t: TrackHash, i: int, serial: Option<Seq<char>>) -> bool {
    &&& r.name@ == track_rom_name(t.number@)
    &&& r.size == t.size
    &&& r.hashes.crc32 == t.crc32
    &&& r.hashes.md5 == t.md5
    &&& r.hashes.sha1 == t.sha1
    &&& r.hashes.sha256 == t.sha256
    &&& r.header is None
    &&& opt_view(r.serial) == if i == 0 {
        serial
    } else {
        None
    }
}

/// One ROM entry per digested track of a disc; the first carries the disc's
/// serial.
pub fn cue_track_roms(tracks: &Vec<TrackHash>, serial: Option<String>) -> (r: Vec<RomEntry>)
    ensures
        r@.len() == tracks@.len(),
        forall|i: int| 0 <= i < r@.len() ==> track_rom_matches(#[trigger] r@[i], tracks@[i], i, opt_view(serial)),
{
    let mut out: Vec<RomEntry> = Vec::new();
    let mut i: usize = 0;
    while i < tracks.len()
        invariant
            i <= tracks.len(),
            out@.len() == i,
            forall|j: int| 0 <= j < i ==> track_rom_matches(#[trigger] out@[j], tracks@[j], j, opt_view(serial)),
        decreases tracks.len() - i,
    {
        let t = &tracks[i];
        let n: u32 = match parse_u32(t.number.as_str()) {
            Some(v) => v,
            None => 0,
        };
        let mut name: Vec<char> = Vec::new();
        append_str(&mut name, "Track ");
        if n < 10 {
            name.push('0');
        }
        let d = decimal_chars(n as u64);
        append_chars(&mut name, &d);
        append_str(&mut name, ".bin");
        assert(name@ =~= track_rom_name(t.number@));
        let rom_serial = if i == 0 {
            clone_opt(&serial)
        } else {
            None
        };
        out.push(
            RomEntry {
                name: string_from_chars(&name),
                size: t.size,
                hashes: Hashes { crc32: t.crc32, md5: t.md5, sha1: t.sha1, sha256: t.sha256 },
                header: None,
                serial: rom_serial,
            },
        );
        i += 1;
    }
    out
}


// ---------------------------------------------------------------------------
// The catalogue text
// ---------------------------------------------------------------------------

/// A character as it stands in XML text or an attribute.
pub open spec fn xml_char(c: char) -> Seq<char> {
    if c == '&' {
        "&amp;"@
    } else if c == '<' {
        "&lt;"@
    } else if c == '>' {
        "&gt;"@
    } else if c == '"' {
        "&quot;"@
    } else {
        seq![c]
    }
}

/// Text with `&`, `<`, `>` and `"` written as entities.
pub open spec fn spec_xml_escape(s: Seq<char>) -> Seq<char>
    decreases s.len(),
{
    if s.len() == 0 {
        Seq::empty()
    } else {
        spec_xml_escape(s.drop_last()) + xml_char(s.last())
    }
}

fn push_xml_escaped(out: &mut Vec<char>, s: &str)
    ensures
        final(out)@ == old(out)@ + spec_xml_escape(s@),
{
    let v = chars_of(s);
    let ghost start = out@;
    let mut i: usize = 0;
    while i < v.len()
        invariant
            v@ == s@,
            i <= v.len(),
            out@ == start + spec_xml_escape(v@.take(i as int)),
        decreases v.len() - i,
    {
        assert(v@.take(i + 1).drop_last() =~= v@.take(i as int));
        let c = v[i];
        if c == '&' {
            append_str(out, "&amp;");
        } else if c == '<' {
            append_str(out, "&lt;");
        } else if c == '>' {
            append_str(out, "&gt;");
        } else if c == '"' {
            append_str(out, "&quot;");
        } else {
            out.push(c);
        }
        i += 1;
        assert(out@ =~= start + spec_xml_escape(v@.take(i as int)));
    }
    assert(v@.take(i as int) =~= v@);
}

/// Text escaped for XML.
pub fn xml_escape(s: &str) -> (r: String)
    ensures
        r@ == spec_xml_escape(s@),
{
    let mut out: Vec<char> = Vec::new();
    push_xml_escaped(&mut out, s);
    assert(out@ =~= spec_xml_escape(s@));
    string_from_chars(&out)
}

/// The pieces of text for every item, one after the other.
pub open spec fn concat_each<T>(s: Seq<T>, f: spec_fn(T) -> Seq<char>) -> Seq<char>
    decreases s.len(),
{
    if s.len() == 0 {
        Seq::empty()
    } else {
        concat_each(s.drop_last(), f) + f(s.last())
    }
}

/// ` header="..."` with the iNES header in spaced hexadecimal, when there is one.
pub open spec fn spec_header_attr(h: Option<[u8; 16]>) -> Seq<char> {
    match h {
        Some(a) => " header=\""@ + join_with(hex_byte_texts(a@), " "@) + "\""@,
        None => Seq::empty(),
    }
}

/// ` serial="..."` when the ROM has a serial.
pub open spec fn spec_serial_attr(s: Option<Seq<char>>) -> Seq<char> {
    match s {
        Some(x) => " serial=\""@ + spec_xml_escape(x) + "\""@,
        None => Seq::empty(),
    }
}

/// The iNES header attribute of a ROM.
pub fn header_attr(rom: &RomEntry) -> (r: String)
    ensures
        r@ == spec_header_attr(rom.header),
{
    match &rom.header {
        Some(h) => {
            let hex = hex_upper_spaced(h.as_slice());
            let mut t: Vec<char> = Vec::new();
            append_str(&mut t, " header=\"");
            append_str(&mut t, hex.as_str());
            append_str(&mut t, "\"");
            assert(t@ =~= spec_header_attr(rom.header));
            string_from_chars(&t)
        },
        None => {
            let t: Vec<char> = Vec::new();
            assert(t@ =~= spec_header_attr(rom.header));
            string_from_chars(&t)
        },
    }
}

/// The serial attribute of a ROM.
pub fn serial_attr(rom: &RomEntry) -> (r: String)
    ensures
        r@ == spec_serial_attr(opt_view(rom.serial)),
{
    let mut t: Vec<char> = Vec::new();
    if let Some(s) = &rom.serial {
        append_str(&mut t, " serial=\"");
        push_xml_escaped(&mut t, s.as_str());
        append_str(&mut t, "\"");
    }
    assert(t@ =~= spec_serial_attr(opt_view(rom.serial)));
    string_from_chars(&t)
}

/// The header element shared by both catalogue flavours.
pub open spec fn dat_header_lines() -> Seq<char> {
    "\t<header>\n"@ + "\t\t<name>retrospector</name>\n"@
        + "\t\t<description>Generated by retrospector</description>\n"@
        + "\t\t<version>0.1.0</version>\n"@
}

fn push_header_lines(out: &mut Vec<char>)
    ensures
        final(out)@ == old(out)@ + dat_header_lines(),
{
    let mut t: Vec<char> = Vec::new();
    append_str(&mut t, "\t<header>\n");
    append_str(&mut t, "\t\t<name>retrospector</name>\n");
    append_str(&mut t, "\t\t<description>Generated by retrospector</description>\n");
    append_str(&mut t, "\t\t<version>0.1.0</version>\n");
    assert(t@ =~= dat_header_lines());
    append_chars(out, &t);
}

/// The system comment of a game, when its console is known.
pub open spec fn system_comment(s: Option<Seq<char>>) -> Seq<char> {
    match s {
        Some(x) => "\t\t<!-- System: "@ + spec_xml_escape(x) + " -->\n"@,
        None => Seq::empty(),
    }
}

/// An element with escaped text, when there is a value.
pub open spec fn opt_element(open: Seq<char>, v: Option<Seq<char>>, close: Seq<char>) -> Seq<char> {
    match v {
        Some(x) => open + spec_xml_escape(x) + close,
        None => Seq::empty(),
    }
}

/// The `<release>` line of a release of the game `name`.
pub open spec fn release_line(name: Seq<char>, r: ReleaseEntry) -> Seq<char> {
    "\t\t<release name=\""@ + spec_xml_escape(name) + "\" region=\""@ + spec_xml_escape(r.region@)
        + "\""@ + match opt_view(r.date) {
        Some(d) => " date=\""@ + spec_xml_escape(d) + "\""@,
        None => Seq::empty(),
    } + "/>\n"@
}

/// The name, size and first digests of a `<rom>` line.
pub open spec fn rom_digest_attrs(r: RomEntry) -> Seq<char> {
    "\t\t<rom name=\""@ + spec_xml_escape(r.name@) + "\" size=\""@ + spec_decimal(r.size as nat)
        + "\" crc=\""@ + spec_hex(u32_be_bytes(r.hashes.crc32), false) + "\" md5=\""@ + spec_hex(
        r.hashes.md5@,
        false,
    ) + "\" sha1=\""@ + spec_hex(r.hashes.sha1@, false)
}

/// A `<rom>` line of the Logiqx catalogue.
pub open spec fn dat_rom_line(r: RomEntry) -> Seq<char> {
    rom_digest_attrs(r) + "\" sha256=\""@ + spec_hex(r.hashes.sha256@, false) + "\""@
        + spec_header_attr(r.header) + spec_serial_attr(opt_view(r.serial)) + "/>\n"@
}

/// A `<rom>` line of the MAME catalogue.
pub open spec fn mame_rom_line(r: RomEntry) -> Seq<char> {
    rom_digest_attrs(r) + "\""@ + spec_header_attr(r.header) + "/>\n"@
}

/// A `<game>` of the Logiqx catalogue.
pub open spec fn dat_game_text(g: GameEntry) -> Seq<char> {
    "\t<game name=\""@ + spec_xml_escape(g.name@) + "\">\n"@ + system_comment(opt_view(g.system))
        + "\t\t<category>Games</category>\n"@ + "\t\t<description>"@ + spec_xml_escape(
        g.description@,
    ) + "</description>\n"@ + opt_element("\t\t<year>"@, opt_view(g.year), "</year>\n"@)
        + opt_element(
        "\t\t<manufacturer>"@,
        opt_view(g.manufacturer),
        "</manufacturer>\n"@,
    ) + concat_each(g.releases@, |r: ReleaseEntry| release_line(g.name@, r)) + concat_each(
        g.roms@,
        |r: RomEntry| dat_rom_line(r),
    ) + "\t</game>\n"@
}

/// A `<machine>` of the MAME catalogue.
pub open spec fn mame_game_text(g: GameEntry) -> Seq<char> {
    "\t<machine name=\""@ + spec_xml_escape(g.name@) + "\">\n"@ + system_comment(opt_view(g.system))
        + "\t\t<description>"@ + spec_xml_escape(g.description@) + "</description>\n"@
        + concat_each(g.roms@, |r: RomEntry| mame_rom_line(r)) + "\t</machine>\n"@
}

/// The Logiqx XML catalogue of the games.
pub open spec fn spec_serialize_dat(games: Seq<GameEntry>) -> Seq<char> {
    "<?xml version=\"1.0\" encoding=\"UTF-8\"?>\n"@
        + "<datafile xmlns:xsi=\"http://www.w3.org/2001/XMLSchema-instance\" xsi:schemaLocation=\"https://www.logiqx.com/Dats/datafile.xsd\">\n"@
        + dat_header_lines() + "\t</header>\n"@ + concat_each(games, |g: GameEntry| dat_game_text(g))
        + "</datafile>\n"@
}

/// The MAME (clrmamepro) XML catalogue of the games.
pub open spec fn spec_serialize_mamedat(games: Seq<GameEntry>) -> Seq<char> {
    "<?xml version=\"1.0\" encoding=\"UTF-8\"?>\n"@
        + "<!DOCTYPE datafile PUBLIC \"-//Logiqx//DTD ROM Management Datafile//EN\" \"http://www.logiqx.com/Dats/datafile.dtd\">\n\n"@
        + "<datafile>\n"@ + dat_header_lines() + "\t\t<category></category>\n"@
        + "\t\t<date></date>\n"@ + "\t\t<author></author>\n"@ + "\t\t<email></email>\n"@
        + "\t\t<homepage></homepage>\n"@ + "\t\t<url></url>\n"@ + "\t\t<comment></comment>\n"@
        + "\t\t<clrmamepro/>\n"@ + "\t</header>\n"@ + concat_each(
        games,
        |g: GameEntry| mame_game_text(g),
    ) + "</datafile>\n"@
}

fn push_rom_digest_attrs(out: &mut Vec<char>, r: &RomEntry)
    ensures
        final(out)@ == old(out)@ + rom_digest_attrs(*r),
{
    let mut t: Vec<char> = Vec::new();
    append_str(&mut t, "\t\t<rom name=\"");
    push_xml_escaped(&mut t, r.name.as_str());
    append_str(&mut t, "\" size=\"");
    let d = decimal_chars(r.size as u64);
    append_chars(&mut t, &d);
    append_str(&mut t, "\" crc=\"");
    append_str(&mut t, r.hashes.crc32_hex_lower().as_str());
    append_str(&mut t, "\" md5=\"");
    append_str(&mut t, r.hashes.md5_hex_lower().as_str());
    append_str(&mut t, "\" sha1=\"");
    append_str(&mut t, r.hashes.sha1_hex_lower().as_str());
    assert(t@ =~= rom_digest_attrs(*r));
    append_chars(out, &t);
}

fn push_dat_rom_line(out: &mut Vec<char>, r: &RomEntry)
    ensures
        final(out)@ == old(out)@ + dat_rom_line(*r),
{
    let mut t: Vec<char> = Vec::new();
    push_rom_digest_attrs(&mut t, r);
    append_str(&mut t, "\" sha256=\"");
    append_str(&mut t, r.hashes.sha256_hex_lower().as_str());
    append_str(&mut t, "\"");
    append_str(&mut t, header_attr(r).as_str());
    append_str(&mut t, serial_attr(r).as_str());
    append_str(&mut t, "/>\n");
    assert(t@ =~= dat_rom_line(*r));
    append_chars(out, &t);
}

fn push_mame_rom_line(out: &mut Vec<char>, r: &RomEntry)
    ensures
        final(out)@ == old(out)@ + mame_rom_line(*r),
{
    let mut t: Vec<char> = Vec::new();
    push_rom_digest_attrs(&mut t, r);
    append_str(&mut t, "\"");
    append_str(&mut t, header_attr(r).as_str());
    append_str(&mut t, "/>\n");
    assert(t@ =~= mame_rom_line(*r));
    append_chars(out, &t);
}

fn push_opt_element(out: &mut Vec<char>, open: &str, v: &Option<String>, close: &str)
    ensures
        final(out)@ == old(out)@ + opt_element(open@, opt_view(*v), close@),
{
    let mut t: Vec<char> = Vec::new();
    if let Some(x) = v {
        append_str(&mut t, open);
        push_xml_escaped(&mut t, x.as_str());
        append_str(&mut t, close);
    }
    assert(t@ =~= opt_element(open@, opt_view(*v), close@));
    append_chars(out, &t);
}

fn push_system_comment(out: &mut Vec<char>, v: &Option<String>)
    ensures
        final(out)@ == old(out)@ + system_comment(opt_view(*v)),
{
    let mut t: Vec<char> = Vec::new();
    if let Some(x) = v {
        append_str(&mut t, "\t\t<!-- System: ");
        push_xml_escaped(&mut t, x.as_str());
        append_str(&mut t, " -->\n");
    }
    assert(t@ =~= system_comment(opt_view(*v)));
    append_chars(out, &t);
}

fn push_release_line(out: &mut Vec<char>, name: &str, r: &ReleaseEntry)
    ensures
        final(out)@ == old(out)@ + release_line(name@, *r),
{
    let mut t: Vec<char> = Vec::new();
    append_str(&mut t, "\t\t<release name=\"");
    push_xml_escaped(&mut t, name);
    append_str(&mut t, "\" region=\"");
    push_xml_escaped(&mut t, r.region.as_str());
    append_str(&mut t, "\"");
    if let Some(d) = &r.date {
        append_str(&mut t, " date=\"");
        push_xml_escaped(&mut t, d.as_str());
        append_str(&mut t, "\"");
    }
    append_str(&mut t, "/>\n");
    assert(t@ =~= release_line(name@, *r));
    append_chars(out, &t);
}

#[verifier::spinoff_prover]
#[verifier::rlimit(30)]
fn push_dat_game(out: &mut Vec<char>, g: &GameEntry)
    ensures
        final(out)@ == old(out)@ + dat_game_text(*g),
{
    let mut t: Vec<char> = Vec::new();
    append_str(&mut t, "\t<game name=\"");
    push_xml_escaped(&mut t, g.name.as_str());
    append_str(&mut t, "\">\n");
    push_system_comment(&mut t, &g.system);
    append_str(&mut t, "\t\t<category>Games</category>\n");
    append_str(&mut t, "\t\t<description>");
    push_xml_escaped(&mut t, g.description.as_str());
    append_str(&mut t, "</description>\n");
    push_opt_element(&mut t, "\t\t<year>", &g.year, "</year>\n");
    push_opt_element(&mut t, "\t\t<manufacturer>", &g.manufacturer, "</manufacturer>\n");
    let ghost f = |r: ReleaseEntry| release_line(g.name@, r);
    let ghost head = t@;
    let mut i: usize = 0;
    while i < g.releases.len()
        invariant
            i <= g.releases.len(),
            f == (|r: ReleaseEntry| release_line(g.name@, r)),
            t@ == head + concat_each(g.releases@.take(i as int), f),
        decreases g.releases.len() - i,
    {
        assert(g.releases@.take(i + 1).drop_last() =~= g.releases@.take(i as int));
        push_release_line(&mut t, g.name.as_str(), &g.releases[i]);
        i += 1;
        assert(t@ =~= head + concat_each(g.releases@.take(i as int), f));
    }
    assert(g.releases@.take(i as int) =~= g.releases@);
    let ghost fr = |r: RomEntry| dat_rom_line(r);
    let ghost head2 = t@;
    let mut j: usize = 0;
    while j < g.roms.len()
        invariant
            j <= g.roms.len(),
            fr == (|r: RomEntry| dat_rom_line(r)),
            t@ == head2 + concat_each(g.roms@.take(j as int), fr),
        decreases g.roms.len() - j,
    {
        assert(g.roms@.take(j + 1).drop_last() =~= g.roms@.take(j as int));
        push_dat_rom_line(&mut t, &g.roms[j]);
        j += 1;
        assert(t@ =~= head2 + concat_each(g.roms@.take(j as int), fr));
    }
    assert(g.roms@.take(j as int) =~= g.roms@);
    append_str(&mut t, "\t</game>\n");
    assert(t@ =~= dat_game_text(*g));
    append_chars(out, &t);
}

#[verifier::spinoff_prover]
#[verifier::rlimit(30)]
fn push_mame_game(out: &mut Vec<char>, g: &GameEntry)
    ensures
        final(out)@ == old(out)@ + mame_game_text(*g),
{
    let mut t: Vec<char> = Vec::new();
    append_str(&mut t, "\t<machine name=\"");
    push_xml_escaped(&mut t, g.name.as_str());
    append_str(&mut t, "\">\n");
    push_system_comment(&mut t, &g.system);
    append_str(&mut t, "\t\t<description>");
    push_xml_escaped(&mut t, g.description.as_str());
    append_str(&mut t, "</description>\n");
    let ghost fr = |r: RomEntry| mame_rom_line(r);
    let ghost head = t@;
    let mut j: usize = 0;
    while j < g.roms.len()
        invariant
            j <= g.roms.len(),
            fr == (|r: RomEntry| mame_rom_line(r)),
            t@ == head + concat_each(g.roms@.take(j as int), fr),
        decreases g.roms.len() - j,
    {
        assert(g.roms@.take(j + 1).drop_last() =~= g.roms@.take(j as int));
        push_mame_rom_line(&mut t, &g.roms[j]);
        j += 1;
        assert(t@ =~= head + concat_each(g.roms@.take(j as int), fr));
    }
    assert(g.roms@.take(j as int) =~= g.roms@);
    append_str(&mut t, "\t</machine>\n");
    assert(t@ =~= mame_game_text(*g));
    append_chars(out, &t);
}

/// The games as a Logiqx XML catalogue.
#[verifier::spinoff_prover]
#[verifier::rlimit(30)]
pub fn serialize_dat(games: &[GameEntry]) -> (r: String)
    ensures
        r@ == spec_serialize_dat(games@),
{
    let mut t: Vec<char> = Vec::new();
    append_str(&mut t, "<?xml version=\"1.0\" encoding=\"UTF-8\"?>\n");
    append_str(
        &mut t,
        "<datafile xmlns:xsi=\"http://www.w3.org/2001/XMLSchema-instance\" xsi:schemaLocation=\"https://www.logiqx.com/Dats/datafile.xsd\">\n",
    );
    push_header_lines(&mut t);
    append_str(&mut t, "\t</header>\n");
    let ghost f = |g: GameEntry| dat_game_text(g);
    let ghost head = t@;
    let mut i: usize = 0;
    while i < games.len()
        invariant
            i <= games.len(),
            f == (|g: GameEntry| dat_game_text(g)),
            t@ == head + concat_each(games@.take(i as int), f),
        decreases games.len() - i,
    {
        assert(games@.take(i + 1).drop_last() =~= games@.take(i as int));
        push_dat_game(&mut t, &games[i]);
        i += 1;
        assert(t@ =~= head + concat_each(games@.take(i as int), f));
    }
    assert(games@.take(i as int) =~= games@);
    append_str(&mut t, "</datafile>\n");
    assert(t@ =~= spec_serialize_dat(games@));
    string_from_chars(&t)
}

/// The games as a MAME (clrmamepro) XML catalogue.
#[verifier::spinoff_prover]
#[verifier::rlimit(30)]
pub fn serialize_mamedat(games: &[GameEntry]) -> (r: String)
    ensures
        r@ == spec_serialize_mamedat(games@),
{
    let mut t: Vec<char> = Vec::new();
    append_str(&mut t, "<?xml version=\"1.0\" encoding=\"UTF-8\"?>\n");
    append_str(
        &mut t,
        "<!DOCTYPE datafile PUBLIC \"-//Logiqx//DTD ROM Management Datafile//EN\" \"http://www.logiqx.com/Dats/datafile.dtd\">\n\n",
    );
    append_str(&mut t, "<datafile>\n");
    push_header_lines(&mut t);
    append_str(&mut t, "\t\t<category></category>\n");
    append_str(&mut t, "\t\t<date></date>\n");
    append_str(&mut t, "\t\t<author></author>\n");
    append_str(&mut t, "\t\t<email></email>\n");
    append_str(&mut t, "\t\t<homepage></homepage>\n");
    append_str(&mut t, "\t\t<url></url>\n");
    append_str(&mut t, "\t\t<comment></comment>\n");
    append_str(&mut t, "\t\t<clrmamepro/>\n");
    append_str(&mut t, "\t</header>\n");
    let ghost f = |g: GameEntry| mame_game_text(g);
    let ghost head = t@;
    let mut i: usize = 0;
    while i < games.len()
        invariant
            i <= games.len(),
            f == (|g: GameEntry| mame_game_text(g)),
            t@ == head + concat_each(games@.take(i as int), f),
        decreases games.len() - i,
    {
        assert(games@.take(i + 1).drop_last() =~= games@.take(i as int));
        push_mame_game(&mut t, &games[i]);
        i += 1;
        assert(t@ =~= head + concat_each(games@.take(i as int), f));
    }
    assert(games@.take(i as int) =~= games@);
    append_str(&mut t, "</datafile>\n");
    assert(t@ =~= spec_serialize_mamedat(games@));
    string_from_chars(&t)
}

/// Escaped text holds no `<`, `>` or `"`: it can stand in element text and
/// in a quoted attribute.
pub proof fn law_xml_escape_has_no_markup(s: Seq<char>)
    ensures
        forall|i: int|
            0 <= i < spec_xml_escape(s).len() ==> #[trigger] spec_xml_escape(s)[i] != '<'
                && spec_xml_escape(s)[i] != '>' && spec_xml_escape(s)[i] != '"',
    decreases s.len(),
{
    if s.len() > 0 {
        law_xml_escape_has_no_markup(s.drop_last());
        reveal_strlit("&amp;");
        reveal_strlit("&lt;");
        reveal_strlit("&gt;");
        reveal_strlit("&quot;");
        let a = spec_xml_escape(s.drop_last());
        let b = xml_char(s.last());
        assert forall|i: int| 0 <= i < spec_xml_escape(s).len() implies #[trigger] spec_xml_escape(s)[i]
            != '<' && spec_xml_escape(s)[i] != '>' && spec_xml_escape(s)[i] != '"' by {
            if i < a.len() {
                assert(spec_xml_escape(s)[i] == a[i]);
            } else {
                assert(spec_xml_escape(s)[i] == b[i - a.len()]);
            }
        }
    }
}

proof fn lemma_decimal_digits(n: nat)
    ensures
        spec_decimal(n).len() >= 1,
        all_digits(spec_decimal(n)),
        digits_value(spec_decimal(n)) == n,
    decreases n,
{
    if n < 10 {
        crate::text::lemma_digit_char_value(n);
        assert(spec_decimal(n) =~= seq![crate::text::digit_char(n)]);
        assert(spec_decimal(n).drop_last().len() == 0);
        assert(digits_value(spec_decimal(n).drop_last()) == 0);
    } else {
        lemma_decimal_digits(n / 10);
        crate::text::lemma_digit_char_value(n % 10);
        let s = spec_decimal(n);
        assert(s.drop_last() =~= spec_decimal(n / 10));
        assert(digits_value(s.drop_last()) == n / 10);
        assert(s.last() == crate::text::digit_char(n % 10));
        assert forall|i: int| 0 <= i < s.len() implies '0' <= #[trigger] s[i] && s[i] <= '9' by {
            if i < s.len() - 1 {
                assert(s[i] == spec_decimal(n / 10)[i]);
            }
        }
    }
}

/// Reading back the decimal text of a number gives the number.
pub proof fn law_parse_reads_decimal(n: u32)
    ensures
        spec_parse_u32(spec_decimal(n as nat)) == Some(n),
{
    lemma_decimal_digits(n as nat);
    let s = spec_decimal(n as nat);
    assert('0' <= s[0] && s[0] <= '9');
}

/// `p` occurs in `s` as a contiguous run.
pub open spec fn contains_text(s: Seq<char>, p: Seq<char>) -> bool {
    exists|i: int| 0 <= i && i + p.len() <= s.len() && #[trigger] s.subrange(i, i + p.len()) == p
}

proof fn lemma_contains_text_extend(x: Seq<char>, a: Seq<char>, y: Seq<char>, p: Seq<char>)
    requires
        contains_text(a, p),
    ensures
        contains_text(x + a + y, p),
{
    let i = choose|i: int| 0 <= i && i + p.len() <= a.len() && #[trigger] a.subrange(i, i + p.len()) == p;
    let s = x + a + y;
    assert(s.subrange(x.len() + i, x.len() + i + p.len()) =~= a.subrange(i, i + p.len()));
}

proof fn lemma_contains_self(p: Seq<char>)
    ensures
        contains_text(p, p),
{
    let z: int = 0;
    assert(p.subrange(z, z + p.len()) =~= p);
}

proof fn lemma_concat_each_contains<T>(s: Seq<T>, f: spec_fn(T) -> Seq<char>, j: int)
    requires
        0 <= j < s.len(),
    ensures
        contains_text(concat_each(s, f), f(s[j])),
    decreases s.len(),
{
    if j == s.len() - 1 {
        lemma_contains_self(f(s[j]));
        lemma_contains_text_extend(concat_each(s.drop_last(), f), f(s[j]), Seq::empty(), f(s[j]));
        assert(concat_each(s.drop_last(), f) + f(s[j]) + Seq::<char>::empty() =~= concat_each(s, f));
    } else {
        lemma_concat_each_contains(s.drop_last(), f, j);
        assert(s.drop_last()[j] == s[j]);
        lemma_contains_text_extend(Seq::empty(), concat_each(s.drop_last(), f), f(s.last()), f(s[j]));
        assert(Seq::<char>::empty() + concat_each(s.drop_last(), f) + f(s.last()) =~= concat_each(s, f));
    }
}

/// Every release of every game is written into the Logiqx catalogue as its
/// own `<release>` line: the game's name, the release region and, when the
/// release has one, its date as a `date` attribute, all XML-escaped.
pub proof fn law_dat_lists_every_release(games: Seq<GameEntry>, gi: int, ri: int)
    requires
        0 <= gi < games.len(),
        0 <= ri < games[gi].releases@.len(),
    ensures
        contains_text(
            spec_serialize_dat(games),
            "\t\t<release name=\""@ + spec_xml_escape(games[gi].name@) + "\" region=\""@
                + spec_xml_escape(games[gi].releases@[ri].region@) + "\""@ + match opt_view(
                games[gi].releases@[ri].date,
            ) {
                Some(d) => " date=\""@ + spec_xml_escape(d) + "\""@,
                None => Seq::<char>::empty(),
            } + "/>\n"@,
        ),
{
    let g = games[gi];
    let r = g.releases@[ri];
    let line = "\t\t<release name=\""@ + spec_xml_escape(g.name@) + "\" region=\""@
        + spec_xml_escape(r.region@) + "\""@ + match opt_view(r.date) {
        Some(d) => " date=\""@ + spec_xml_escape(d) + "\""@,
        None => Seq::<char>::empty(),
    } + "/>\n"@;
    let fr = |x: ReleaseEntry| release_line(g.name@, x);
    lemma_concat_each_contains(g.releases@, fr, ri);
    assert(fr(g.releases@[ri]) =~= line);
    let head = "\t<game name=\""@ + spec_xml_escape(g.name@) + "\">\n"@ + system_comment(opt_view(g.system))
        + "\t\t<category>Games</category>\n"@ + "\t\t<description>"@ + spec_xml_escape(
        g.description@,
    ) + "</description>\n"@ + opt_element("\t\t<year>"@, opt_view(g.year), "</year>\n"@)
        + opt_element(
        "\t\t<manufacturer>"@,
        opt_view(g.manufacturer),
        "</manufacturer>\n"@,
    );
    let tail = concat_each(g.roms@, |x: RomEntry| dat_rom_line(x)) + "\t</game>\n"@;
    lemma_contains_text_extend(head, concat_each(g.releases@, fr), tail, line);
    assert(head + concat_each(g.releases@, fr) + tail =~= dat_game_text(g));
    let fg = |x: GameEntry| dat_game_text(x);
    lemma_concat_each_contains(games, fg, gi);
    let pre = "<?xml version=\"1.0\" encoding=\"UTF-8\"?>\n"@
        + "<datafile xmlns:xsi=\"http://www.w3.org/2001/XMLSchema-instance\" xsi:schemaLocation=\"https://www.logiqx.com/Dats/datafile.xsd\">\n"@
        + dat_header_lines() + "\t</header>\n"@;
    let whole = concat_each(games, fg);
    let gt = dat_game_text(g);
    let i = choose|i: int| 0 <= i && i + gt.len() <= whole.len() && #[trigger] whole.subrange(i, i + gt.len()) == gt;
    let j = choose|j: int| 0 <= j && j + line.len() <= gt.len() && #[trigger] gt.subrange(j, j + line.len()) == line;
    assert(whole.subrange(i + j, i + j + line.len()) =~= gt.subrange(j, j + line.len()));
    assert(contains_text(whole, line));
    lemma_contains_text_extend(pre, whole, "</datafile>\n"@, line);
    assert(pre + whole + "</datafile>\n"@ =~= spec_serialize_dat(games));
}

} // verus!
