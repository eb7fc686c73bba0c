//! ColecoVision cartridges: the boot magic on a 4 KiB page and the
//! slash-delimited title lines that the BIOS shows.

use crate::bytes::read_u16_le;
use crate::bytes::spec_u16_le;
use crate::ext::{compute_sha1, spec_sha1, string_from_chars};
use crate::text::{
    string_seqs,
    append_str, char_seqs, join_chars, spec_decimal, join_with, split_chars, split_on, trim_both, trim_both_chars, trim_start,
    trim_start_chars, trim_ws, CharClass, lemma_split_on_nonempty,
};
use crate::traits::{meta_is_empty, opt_view, DatMeta, ParseError, RomHash, RomInfo};
use crate::report::{hex_padded, opt_line, push_dec, push_hex_padded, push_opt_line, push_sha1, sha1_text};
use vstd::prelude::*;

verus! {

/// The fundamental ROM chip unit; images are whole multiples of it.
pub const ROM_PAGE_BYTES: usize = 0x1000;

/// Offset of the title text within the header page.
pub const TITLE_START_OFFSET: usize = 0x24;

/// The most title bytes read.
pub const TITLE_MAX_BYTES: usize = 96;

/// How the BIOS starts the cartridge.
#[derive(Clone, Copy, Debug, PartialEq, Eq, Structural)]
pub enum BootMode {
    /// `AA 55`: the BIOS shows the title screen.
    TitleScreen,
    /// `55 AA`: the BIOS jumps straight to the entry point.
    DirectBoot,
}

/// A parsed ColecoVision cartridge.
pub struct ColecoVisionInfo {
    pub boot_mode: BootMode,
    pub title: Option<String>,
    pub copyright_year: Option<String>,
    pub entry_point: u16,
    pub size_kb: usize,
    pub rom_sha1: [u8; 20],
}

impl Default for ColecoVisionInfo {
    fn default() -> (r: ColecoVisionInfo)
        ensures
            r.boot_mode == BootMode::DirectBoot,
            r.title is None,
            r.copyright_year is None,
            r.entry_point == 0,
            r.size_kb == 0,
            r.rom_sha1@ == Seq::new(20, |i: int| 0u8),
    {
        let r = ColecoVisionInfo {
            boot_mode: BootMode::DirectBoot,
            title: None,
            copyright_year: None,
            entry_point: 0,
            size_kb: 0,
            rom_sha1: [0u8; 20],
        };
        assert(r.rom_sha1@ =~= Seq::new(20, |i: int| 0u8));
        r
    }
}

// ---------------------------------------------------------------------------
// Title text
// ---------------------------------------------------------------------------

/// Printable ASCII or space.
pub open spec fn cv_printable(b: u8) -> bool {
    0x20 <= b <= 0x7E
}

/// The characters decoded from title bytes `t[i..]`: NUL ends the text,
/// 0x1D is ©, 0x1E is ™ (swallowing a 0x1F right after it), a lone 0x1F
/// is dropped, other unprintable bytes are skipped while nothing has been
/// decoded yet (`empty`) and end the text after that.
pub open spec fn cv_decode(t: Seq<u8>, i: int, empty: bool) -> Seq<char>
    decreases t.len() - i,
{
    if i < 0 || i >= t.len() {
        Seq::empty()
    } else {
        let b = t[i];
        if b == 0 {
            Seq::empty()
        } else if b == 0x1D {
            seq!['©'] + cv_decode(t, i + 1, false)
        } else if b == 0x1E {
            let next = if i + 1 < t.len() && t[i + 1] == 0x1F {
                i + 2
            } else {
                i + 1
            };
            seq!['™'] + cv_decode(t, next, false)
        } else if b == 0x1F {
            cv_decode(t, i + 1, empty)
        } else if cv_printable(b) {
            seq![b as char] + cv_decode(t, i + 1, false)
        } else if empty {
            cv_decode(t, i + 1, true)
        } else {
            Seq::empty()
        }
    }
}

fn decode_title(t: &[u8]) -> (r: Vec<char>)
    ensures
        r@ == cv_decode(t@, 0, true),
{
    let mut out: Vec<char> = Vec::new();
    let mut i: usize = 0;
    let mut done = false;
    while !done && i < t.len()
        invariant
            i <= t.len() + 1,
            !done ==> cv_decode(t@, 0, true) == out@ + cv_decode(t@, i as int, out@.len() == 0),
            done ==> cv_decode(t@, 0, true) == out@,
        decreases t.len() + 1 - i + if done { 0int } else { 1int },
    {
        let b = t[i];
        let ghost before = out@;
        let ghost tail = cv_decode(t@, i as int, out@.len() == 0);
        if b == 0 {
            done = true;
            assert(out@ + tail =~= out@);
        } else if b == 0x1D {
            out.push('©');
            i += 1;
            assert(out@ + cv_decode(t@, i as int, false) =~= before + tail);
        } else if b == 0x1E {
            out.push('™');
            if i + 1 < t.len() && t[i + 1] == 0x1F {
                i += 2;
            } else {
                i += 1;
            }
            assert(out@ + cv_decode(t@, i as int, false) =~= before + tail);
        } else if b == 0x1F {
            i += 1;
        } else if 0x20 <= b && b <= 0x7E {
            out.push(b as char);
            i += 1;
            assert(out@ + cv_decode(t@, i as int, false) =~= before + tail);
        } else if out.len() == 0 {
            i += 1;
        } else {
            done = true;
            assert(out@ + tail =~= out@);
        }
    }
    proof {
        if !done {
            assert(out@ + cv_decode(t@, i as int, out@.len() == 0) =~= out@);
        }
    }
    out
}

/// A title line trimmed, with a leading `"© "` closed up to `"©"`.
pub open spec fn cv_fix_line(l: Seq<char>) -> Seq<char> {
    let t = trim_ws(l);
    if t.len() >= 2 && t[0] == '©' && t[1] == ' ' {
        seq!['©'] + t.skip(2)
    } else {
        t
    }
}

/// The non-empty fixed lines among `pieces`, in order.
pub open spec fn cv_keep_lines(pieces: Seq<Seq<char>>) -> Seq<Seq<char>>
    decreases pieces.len(),
{
    if pieces.len() == 0 {
        Seq::empty()
    } else {
        let l = cv_fix_line(pieces.last());
        let r = cv_keep_lines(pieces.drop_last());
        if l.len() > 0 {
            r.push(l)
        } else {
            r
        }
    }
}

/// The first three `/`-separated pieces of `s`.
pub open spec fn cv_first_three(s: Seq<char>) -> Seq<Seq<char>> {
    let p = split_on(s, '/');
    if p.len() <= 3 {
        p
    } else {
        p.take(3)
    }
}

/// The title bytes of the header page at `off`: at most 96 from `off + 0x24`.
pub open spec fn cv_title_bytes(b: Seq<u8>, off: int) -> Seq<u8> {
    let start = off + 0x24;
    let end = if start + 96 <= b.len() {
        start + 96
    } else {
        b.len() as int
    };
    if start >= end {
        Seq::empty()
    } else {
        b.subrange(start, end)
    }
}

/// The title lines of the header page at `off`, in stored (bottom-to-top) order.
pub open spec fn cv_title_lines(b: Seq<u8>, off: int) -> Seq<Seq<char>> {
    cv_keep_lines(cv_first_three(cv_decode(cv_title_bytes(b, off), 0, true)))
}

fn fix_line(l: &Vec<char>) -> (r: Vec<char>)
    ensures
        r@ == cv_fix_line(l@),
{
    let t = trim_both_chars(l, CharClass::Whitespace);
    if t.len() >= 2 && t[0] == '©' && t[1] == ' ' {
        let mut out: Vec<char> = Vec::new();
        out.push('©');
        let mut i: usize = 2;
        while i < t.len()
            invariant
                2 <= i <= t.len(),
                out@ == seq!['©'] + t@.subrange(2, i as int),
            decreases t.len() - i,
        {
            out.push(t[i]);
            i += 1;
            assert(out@ =~= seq!['©'] + t@.subrange(2, i as int));
        }
        assert(t@.subrange(2, t@.len() as int) =~= t@.skip(2));
        out
    } else {
        t
    }
}

fn title_line_chars(buffer: &[u8], header_offset: usize) -> (r: Vec<Vec<char>>)
    ensures
        char_seqs(r@) == cv_title_lines(buffer@, header_offset as int),
{
    let len = buffer.len();
    if header_offset > len || len - header_offset <= 0x24 {
        assert(cv_title_bytes(buffer@, header_offset as int) =~= Seq::<u8>::empty());
        let empty: Vec<u8> = Vec::new();
        let decoded = decode_title(empty.as_slice());
        let pieces = split_chars(&decoded, '/');
        return keep_first_three(&pieces);
    }
    let start = header_offset + 0x24;
    let end = if len - start >= 96 {
        start + 96
    } else {
        len
    };
    let title_bytes = &buffer[start..end];
    assert(title_bytes@ =~= cv_title_bytes(buffer@, header_offset as int));
    let decoded = decode_title(title_bytes);
    let pieces = split_chars(&decoded, '/');
    keep_first_three(&pieces)
}

fn keep_first_three(pieces: &Vec<Vec<char>>) -> (r: Vec<Vec<char>>)
    ensures
        char_seqs(r@) == cv_keep_lines(
            if char_seqs(pieces@).len() <= 3 {
                char_seqs(pieces@)
            } else {
                char_seqs(pieces@).take(3)
            },
        ),
{
    let n = if pieces.len() <= 3 {
        pieces.len()
    } else {
        3
    };
    let ghost src = if char_seqs(pieces@).len() <= 3 {
        char_seqs(pieces@)
    } else {
        char_seqs(pieces@).take(3)
    };
    assert(src.len() == n);
    let mut out: Vec<Vec<char>> = Vec::new();
    let mut i: usize = 0;
    assert(src.take(0) =~= Seq::<Seq<char>>::empty());
    while i < n
        invariant
            i <= n,
            n <= pieces.len(),
            src.len() == n,
            forall|j: int| 0 <= j < n ==> #[trigger] src[j] == pieces@[j]@,
            char_seqs(out@) == cv_keep_lines(src.take(i as int)),
        decreases n - i,
    {
        assert(src.take(i + 1).drop_last() =~= src.take(i as int));
        let l = fix_line(&pieces[i]);
        if l.len() > 0 {
            out.push(l);
        }
        i += 1;
        assert(char_seqs(out@) =~= cv_keep_lines(src.take(i as int)));
    }
    assert(src.take(n as int) =~= src);
    out
}

/// The title lines at header page `off`: decoded, split at `/`, the first
/// three kept, trimmed, and empty ones dropped.
pub fn parse_title_lines(buffer: &[u8], header_offset: usize) -> (r: Vec<String>)
    ensures
        string_seqs(r@) == cv_title_lines(buffer@, header_offset as int),
{
    let lines = title_line_chars(buffer, header_offset);
    let mut out: Vec<String> = Vec::new();
    let mut i: usize = 0;
    while i < lines.len()
        invariant
            i <= lines.len(),
            string_seqs(out@) == char_seqs(lines@).take(i as int),
        decreases lines.len() - i,
    {
        let ghost prev = out@;
        let s = string_from_chars(&lines[i]);
        out.push(s);
        i += 1;
        proof {
            assert(string_seqs(prev).len() == prev.len());
            assert(char_seqs(lines@).len() == lines@.len());
            assert(prev.len() == i - 1);
            assert forall|j: int| 0 <= j < out@.len() implies #[trigger] string_seqs(out@)[j]
                == char_seqs(lines@).take(i as int)[j] by {
                if j < prev.len() {
                    assert(out@[j] == prev[j]);
                    assert(string_seqs(prev)[j] == char_seqs(lines@).take(i - 1)[j]);
                } else {
                    assert(out@[j] == s);
                    assert(char_seqs(lines@)[j] == lines@[j]@);
                }
            }
            assert(string_seqs(out@) =~= char_seqs(lines@).take(i as int));
        }
    }
    assert(char_seqs(lines@).take(i as int) =~= char_seqs(lines@));
    out
}

pub open spec fn is_ascii_digit(c: char) -> bool {
    '0' <= c <= '9'
}

/// A copyright year: the line trimmed, leading © signs and whitespace
/// removed, then its first four characters when they are ASCII digits
/// starting with `19` or `20`.
pub open spec fn cv_copyright_year(line: Seq<char>) -> Option<Seq<char>> {
    let t = trim_ws(trim_start(trim_ws(line), CharClass::Copyright));
    if t.len() >= 4 && is_ascii_digit(t[0]) && is_ascii_digit(t[1]) && is_ascii_digit(t[2])
        && is_ascii_digit(t[3]) && ((t[0] == '1' && t[1] == '9') || (t[0] == '2' && t[1] == '0')) {
        Some(t.take(4))
    } else {
        None
    }
}

fn copyright_year_chars(line: &Vec<char>) -> (r: Option<Vec<char>>)
    ensures
        match r {
            Some(v) => cv_copyright_year(line@) == Some(v@),
            None => cv_copyright_year(line@) is None,
        },
{
    let t1 = trim_both_chars(line, CharClass::Whitespace);
    let t2 = trim_start_chars(&t1, CharClass::Copyright);
    let t = trim_both_chars(&t2, CharClass::Whitespace);
    if t.len() >= 4 && '0' <= t[0] && t[0] <= '9' && '0' <= t[1] && t[1] <= '9' && '0' <= t[2]
        && t[2] <= '9' && '0' <= t[3] && t[3] <= '9' && ((t[0] == '1' && t[1] == '9') || (t[0]
        == '2' && t[1] == '0')) {
        let mut y: Vec<char> = Vec::new();
        y.push(t[0]);
        y.push(t[1]);
        y.push(t[2]);
        y.push(t[3]);
        assert(y@ =~= t@.take(4));
        Some(y)
    } else {
        None
    }
}

/// The copyright year of a title line, when it starts with one.
pub fn parse_copyright_year(line: &str) -> (r: Option<String>)
    ensures
        opt_view(r) == cv_copyright_year(line@),
{
    let chars = crate::text::chars_of(line);
    match copyright_year_chars(&chars) {
        Some(y) => Some(string_from_chars(&y)),
        None => None,
    }
}

// ---------------------------------------------------------------------------
// The cartridge record
// ---------------------------------------------------------------------------

/// The boot magic (`AA 55` or `55 AA`) starts at `off`.
pub open spec fn cv_magic_at(b: Seq<u8>, off: int) -> bool {
    (b[off] == 0xAA && b[off + 1] == 0x55) || (b[off] == 0x55 && b[off + 1] == 0xAA)
}

/// The first page from page `k` on whose start holds the boot magic.
pub open spec fn cv_header_from(b: Seq<u8>, k: nat) -> Option<int>
    decreases b.len() + 0x1000 - k * 0x1000,
{
    if k * 0x1000 >= b.len() {
        None
    } else if cv_magic_at(b, (k * 0x1000) as int) {
        Some((k * 0x1000) as int)
    } else {
        cv_header_from(b, k + 1)
    }
}

/// The error a parse fails with, when it fails.
pub open spec fn cv_parse_error(b: Seq<u8>) -> Option<ParseError> {
    if b.len() < 0x1000 || b.len() % 0x1000 != 0 {
        Some(ParseError::BufferTooSmall)
    } else if cv_header_from(b, 0) is None {
        Some(ParseError::MagicNotFound)
    } else {
        None
    }
}

/// The displayed title: the lines without a trailing year line, bottom line
/// first, joined with `" / "`; `None` when that is empty.
pub open spec fn cv_title(lines: Seq<Seq<char>>) -> Option<Seq<char>> {
    let year = if lines.len() > 0 {
        cv_copyright_year(lines.last())
    } else {
        None
    };
    let kept = if year is Some {
        lines.drop_last()
    } else {
        lines
    };
    let t = join_with(kept.reverse(), " / "@);
    if t.len() == 0 {
        None
    } else {
        Some(t)
    }
}

/// What a successful parse reads from the buffer.
pub open spec fn cv_info_matches(b: Seq<u8>, info: ColecoVisionInfo) -> bool {
    let off = cv_header_from(b, 0)->0;
    let lines = cv_title_lines(b, off);
    let title_screen = b[off] == 0xAA;
    &&& info.boot_mode == if title_screen {
        BootMode::TitleScreen
    } else {
        BootMode::DirectBoot
    }
    &&& opt_view(info.copyright_year) == if lines.len() > 0 {
        cv_copyright_year(lines.last())
    } else {
        None
    }
    &&& opt_view(info.title) == if title_screen {
        cv_title(lines)
    } else {
        None
    }
    &&& info.entry_point == spec_u16_le(b, off + 0x0A)
    &&& info.size_kb == b.len() / 1024
    &&& info.rom_sha1@ == spec_sha1(b)
}

fn reversed(v: &Vec<Vec<char>>, n: usize) -> (r: Vec<Vec<char>>)
    requires
        n <= v.len(),
    ensures
        char_seqs(r@) == char_seqs(v@).take(n as int).reverse(),
{
    let mut out: Vec<Vec<char>> = Vec::new();
    let mut i: usize = n;
    while i > 0
        invariant
            i <= n <= v.len(),
            char_seqs(out@) == char_seqs(v@).subrange(i as int, n as int).reverse(),
        decreases i,
    {
        i -= 1;
        let mut c: Vec<char> = Vec::new();
        let mut j: usize = 0;
        while j < v[i].len()
            invariant
                i < v.len(),
                j <= v@[i as int]@.len(),
                c@ == v@[i as int]@.take(j as int),
            decreases v@[i as int]@.len() - j,
        {
            c.push(v[i][j]);
            j += 1;
            assert(c@ =~= v@[i as int]@.take(j as int));
        }
        assert(c@ =~= v@[i as int]@);
        let ghost prev = out@;
        out.push(c);
        proof {
            let want = char_seqs(v@).subrange(i as int, n as int).reverse();
            let had = char_seqs(v@).subrange(i + 1, n as int).reverse();
            assert(char_seqs(v@).len() == v@.len());
            assert(char_seqs(prev).len() == prev.len());
            assert(prev.len() == n - i - 1);
            let sub = char_seqs(v@).subrange(i as int, n as int);
            let sub2 = char_seqs(v@).subrange(i + 1, n as int);
            assert(want == Seq::new(sub.len(), |k: int| sub[sub.len() - 1 - k]));
            assert(n - i - 1 > 0 ==> had == Seq::new(sub2.len(), |k: int| sub2[sub2.len() - 1 - k]));
            assert forall|j: int| 0 <= j < out@.len() implies #[trigger] char_seqs(out@)[j]
                == want[j] by {
                let len = n - i;
                assert(want.len() == len);
                assert(want[j] == char_seqs(v@)[n - 1 - j]);
                if j < prev.len() {
                    assert(out@[j] == prev[j]);
                    assert(char_seqs(prev)[j] == had[j]);
                    assert(had[j] == sub2[sub2.len() - 1 - j]);
                } else {
                    assert(out@[j] == c);
                    assert(char_seqs(v@)[i as int] == v@[i as int]@);
                }
            }
            assert(char_seqs(out@) =~= want);
        }
    }
    assert(char_seqs(v@).subrange(0, n as int) =~= char_seqs(v@).take(n as int));
    out
}

proof fn lemma_next_page(off: int, len: int)
    requires
        off % 0x1000 == 0,
        len % 0x1000 == 0,
        0 <= off < len,
    ensures
        off + 0x1000 <= len,
{
    assert(off + 0x1000 <= len) by (nonlinear_arith)
        requires
            off % 0x1000 == 0,
            len % 0x1000 == 0,
            0 <= off < len,
    ;
}

impl ColecoVisionInfo {
    /// Parse a ColecoVision cartridge: find the page with the boot magic and
    /// read its title lines, copyright year and entry point.
    pub fn try_from(buffer: &[u8]) -> (r: Result<ColecoVisionInfo, ParseError>)
        ensures
            match r {
                Ok(info) => cv_parse_error(buffer@) is None && cv_info_matches(buffer@, info),
                Err(e) => cv_parse_error(buffer@) == Some(e),
            },
    {
        let len = buffer.len();
        if len < ROM_PAGE_BYTES || len % ROM_PAGE_BYTES != 0 {
            return Err(ParseError::BufferTooSmall);
        }
        let mut off: usize = 0;
        let ghost mut k: nat = 0;
        while off < len && !((buffer[off] == 0xAA && buffer[off + 1] == 0x55) || (buffer[off]
            == 0x55 && buffer[off + 1] == 0xAA))
            invariant
                len == buffer.len(),
                len % 0x1000 == 0,
                off == k * 0x1000,
                off <= len,
                off % 0x1000 == 0,
                off < len ==> off + 0x1000 <= len,
                cv_header_from(buffer@, 0) == cv_header_from(buffer@, k),
            decreases len - off,
        {
            off += ROM_PAGE_BYTES;
            proof {
                k = k + 1;
                if off < len {
                    lemma_next_page(off as int, len as int);
                }
            }
        }
        if off >= len {
            return Err(ParseError::MagicNotFound);
        }
        let header_offset = off;
        let title_screen = buffer[header_offset] == 0xAA;
        let boot_mode = if title_screen {
            BootMode::TitleScreen
        } else {
            BootMode::DirectBoot
        };
        let lines = title_line_chars(buffer, header_offset);
        let ghost ls = char_seqs(lines@);
        let year_chars = if lines.len() > 0 {
            copyright_year_chars(&lines[lines.len() - 1])
        } else {
            None
        };
        let copyright_year = match &year_chars {
            Some(y) => Some(string_from_chars(y)),
            None => None,
        };
        let title = if title_screen {
            let n = match year_chars {
                Some(_) => lines.len() - 1,
                None => lines.len(),
            };
            let rev = reversed(&lines, n);
            proof {
                if year_chars is Some {
                    assert(ls.take(n as int) =~= ls.drop_last());
                } else {
                    assert(ls.take(n as int) =~= ls);
                }
            }
            let t = join_chars(&rev, " / ");
            if t.len() == 0 {
                None
            } else {
                Some(string_from_chars(&t))
            }
        } else {
            None
        };
        let entry_point = read_u16_le(buffer, header_offset + 0x0A);
        let size_kb = len / 1024;
        let rom_sha1 = compute_sha1(buffer);
        Ok(ColecoVisionInfo { boot_mode, title, copyright_year, entry_point, size_kb, rom_sha1 })
    }
}

impl RomHash for ColecoVisionInfo {
    fn sha1(&self) -> (r: [u8; 20])
        ensures
            r@ == self.rom_sha1@,
    {
        self.rom_sha1
    }
}

impl RomInfo for ColecoVisionInfo {
    fn console(&self) -> (r: &'static str)
        ensures
            r@ == "ColecoVision"@,
    {
        "ColecoVision"
    }

    fn dat_meta(&self) -> (r: DatMeta)
        ensures
            meta_is_empty(r),
    {
        DatMeta::empty()
    }
}

// ---------------------------------------------------------------------------
// Report
// ---------------------------------------------------------------------------

/// The report of a ColecoVision cartridge.
pub open spec fn cv_report(i: ColecoVisionInfo) -> Seq<char> {
    "Boot Mode: "@ + (match i.boot_mode {
        BootMode::TitleScreen => "Title Screen (AA 55)"@,
        BootMode::DirectBoot => "Direct Boot (55 AA)"@,
    }) + "\n"@ + opt_line("Title: "@, opt_view(i.title)) + opt_line(
        "Copyright Year: "@,
        opt_view(i.copyright_year),
    ) + "Size: "@ + spec_decimal(i.size_kb as nat) + " KB\n"@ + "Entry Point: 0x"@ + hex_padded(
        i.entry_point as nat,
        4,
    ) + "\n"@ + sha1_text(i.rom_sha1@) + "\n"@
}

impl ColecoVisionInfo {
    /// The report the inspector prints for the cartridge.
    pub fn describe(&self) -> (r: String)
        ensures
            r@ == cv_report(*self),
    {
        let mut t: Vec<char> = Vec::new();
        append_str(&mut t, "Boot Mode: ");
        match self.boot_mode {
            BootMode::TitleScreen => append_str(&mut t, "Title Screen (AA 55)"),
            BootMode::DirectBoot => append_str(&mut t, "Direct Boot (55 AA)"),
        }
        append_str(&mut t, "\n");
        let title = match &self.title {
            Some(x) => Some(x.as_str()),
            None => None,
        };
        push_opt_line(&mut t, "Title: ", title);
        let year = match &self.copyright_year {
            Some(x) => Some(x.as_str()),
            None => None,
        };
        push_opt_line(&mut t, "Copyright Year: ", year);
        append_str(&mut t, "Size: ");
        push_dec(&mut t, self.size_kb as u64);
        append_str(&mut t, " KB\n");
        append_str(&mut t, "Entry Point: 0x");
        push_hex_padded(&mut t, self.entry_point as u64, 4);
        append_str(&mut t, "\n");
        push_sha1(&mut t, &self.rom_sha1);
        append_str(&mut t, "\n");
        assert(t@ =~= cv_report(*self));
        string_from_chars(&t)
    }
}

} // verus!
