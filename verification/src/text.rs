//! Character-level text helpers: trimming, comparison and number formatting,
//! each stated over the character sequence it produces.

use crate::ext::{spec_utf8_lossy, string_from_chars, utf8_lossy};
use vstd::prelude::*;

verus! {

/// The characters of a string slice, in order (what `str::chars` yields).
pub fn chars_of(s: &str) -> (chars: Vec<char>)
    ensures
        chars@ == s@,
{
    broadcast use vstd::string::axiom_spec_iter;
    let mut v: Vec<char> = Vec::new();
    for c in it: s.chars()
        invariant
            v@ == it.seq().take(it.index() as int),
    {
        v.push(c);
    }
    v
}

/// Unicode `White_Space` characters, as `char::is_whitespace` classifies them.
pub open spec fn spec_is_whitespace(c: char) -> bool {
    ||| ('\u{9}' <= c && c <= '\u{d}')
    ||| c == ' '
    ||| c == '\u{85}'
    ||| c == '\u{a0}'
    ||| c == '\u{1680}'
    ||| ('\u{2000}' <= c && c <= '\u{200a}')
    ||| c == '\u{2028}'
    ||| c == '\u{2029}'
    ||| c == '\u{202f}'
    ||| c == '\u{205f}'
    ||| c == '\u{3000}'
}

/// ASCII whitespace as `char::is_ascii_whitespace` classifies it.
pub open spec fn spec_is_ascii_whitespace(c: char) -> bool {
    c == ' ' || c == '\t' || c == '\n' || c == '\u{c}' || c == '\r'
}

/// Classes of characters that the parsers strip from the ends of text fields.
#[derive(Clone, Copy, PartialEq, Eq, Debug)]
pub enum CharClass {
    /// `char::is_whitespace`
    Whitespace,
    /// The NUL character only.
    Nul,
    /// NUL or the ASCII space.
    NulOrSpace,
    /// NUL or ASCII whitespace.
    NulOrAsciiWhitespace,
    /// The copyright sign.
    Copyright,
}

pub open spec fn in_class(c: char, k: CharClass) -> bool {
    match k {
        CharClass::Whitespace => spec_is_whitespace(c),
        CharClass::Nul => c == '\0',
        CharClass::NulOrSpace => c == '\0' || c == ' ',
        CharClass::NulOrAsciiWhitespace => c == '\0' || spec_is_ascii_whitespace(c),
        CharClass::Copyright => c == '©',
    }
}

pub fn is_whitespace(c: char) -> (r: bool)
    ensures
        r == spec_is_whitespace(c),
{
    ('\u{9}' <= c && c <= '\u{d}') || c == ' ' || c == '\u{85}' || c == '\u{a0}' || c
        == '\u{1680}' || ('\u{2000}' <= c && c <= '\u{200a}') || c == '\u{2028}' || c
        == '\u{2029}' || c == '\u{202f}' || c == '\u{205f}' || c == '\u{3000}'
}

pub fn is_in_class(c: char, k: CharClass) -> (r: bool)
    ensures
        r == in_class(c, k),
{
    match k {
        CharClass::Whitespace => is_whitespace(c),
        CharClass::Nul => c == '\0',
        CharClass::NulOrSpace => c == '\0' || c == ' ',
        CharClass::NulOrAsciiWhitespace => c == '\0' || c == ' ' || c == '\t' || c == '\n' || c
            == '\u{c}' || c == '\r',
        CharClass::Copyright => c == '©',
    }
}

/// Length of `s` once the trailing run of class-`k` characters is removed.
pub open spec fn trim_end_len(s: Seq<char>, k: CharClass) -> nat
    decreases s.len(),
{
    if s.len() == 0 {
        0
    } else if in_class(s.last(), k) {
        trim_end_len(s.drop_last(), k)
    } else {
        s.len()
    }
}

/// Length of the leading run of class-`k` characters of `s`.
pub open spec fn trim_start_len(s: Seq<char>, k: CharClass) -> nat
    decreases s.len(),
{
    if s.len() == 0 {
        0
    } else if in_class(s[0], k) {
        1 + trim_start_len(s.drop_first(), k)
    } else {
        0
    }
}

/// `s` without its trailing class-`k` characters (`str::trim_end_matches`).
pub open spec fn trim_end(s: Seq<char>, k: CharClass) -> Seq<char> {
    s.take(trim_end_len(s, k) as int)
}

/// `s` without its leading class-`k` characters (`str::trim_start_matches`).
pub open spec fn trim_start(s: Seq<char>, k: CharClass) -> Seq<char> {
    s.skip(trim_start_len(s, k) as int)
}

/// `s` without leading and trailing class-`k` characters (`str::trim_matches`).
pub open spec fn trim_both(s: Seq<char>, k: CharClass) -> Seq<char> {
    trim_start(trim_end(s, k), k)
}

/// `str::trim`: leading and trailing Unicode whitespace removed.
pub open spec fn trim_ws(s: Seq<char>) -> Seq<char> {
    trim_both(s, CharClass::Whitespace)
}

pub proof fn lemma_trim_end_len_bound(s: Seq<char>, k: CharClass)
    ensures
        trim_end_len(s, k) <= s.len(),
    decreases s.len(),
{
    if s.len() > 0 && in_class(s.last(), k) {
        lemma_trim_end_len_bound(s.drop_last(), k);
    }
}

pub proof fn lemma_trim_start_len_bound(s: Seq<char>, k: CharClass)
    ensures
        trim_start_len(s, k) <= s.len(),
    decreases s.len(),
{
    if s.len() > 0 && in_class(s[0], k) {
        lemma_trim_start_len_bound(s.drop_first(), k);
    }
}

/// Copy of `v[lo..hi]`.
pub fn sub_chars(v: &Vec<char>, lo: usize, hi: usize) -> (r: Vec<char>)
    requires
        lo <= hi <= v.len(),
    ensures
        r@ == v@.subrange(lo as int, hi as int),
{
    let mut out: Vec<char> = Vec::new();
    let mut i = lo;
    while i < hi
        invariant
            lo <= i <= hi <= v.len(),
            out@ == v@.subrange(lo as int, i as int),
        decreases hi - i,
    {
        out.push(v[i]);
        i += 1;
        assert(out@ =~= v@.subrange(lo as int, i as int));
    }
    out
}

pub fn trim_end_chars(v: &Vec<char>, k: CharClass) -> (r: Vec<char>)
    ensures
        r@ == trim_end(v@, k),
{
    let mut end = v.len();
    proof {
        assert(v@.take(end as int) =~= v@);
    }
    while end > 0 && is_in_class(v[end - 1], k)
        invariant
            end <= v.len(),
            trim_end_len(v@.take(end as int), k) == trim_end_len(v@, k),
        decreases end,
    {
        assert(v@.take(end as int).drop_last() =~= v@.take(end - 1));
        end -= 1;
    }
    proof {
        if end > 0 {
            assert(v@.take(end as int).last() == v@[end - 1]);
        }
    }
    sub_chars(v, 0, end)
}

pub fn trim_start_chars(v: &Vec<char>, k: CharClass) -> (r: Vec<char>)
    ensures
        r@ == trim_start(v@, k),
{
    let mut start: usize = 0;
    proof {
        assert(v@.skip(0) =~= v@);
    }
    while start < v.len() && is_in_class(v[start], k)
        invariant
            start <= v.len(),
            trim_start_len(v@, k) == start + trim_start_len(v@.skip(start as int), k),
        decreases v.len() - start,
    {
        assert(v@.skip(start as int).drop_first() =~= v@.skip(start + 1));
        start += 1;
    }
    proof {
        if start < v.len() {
            assert(v@.skip(start as int)[0] == v@[start as int]);
        }
    }
    let r = sub_chars(v, start, v.len());
    assert(r@ =~= v@.skip(start as int));
    r
}

pub fn trim_both_chars(v: &Vec<char>, k: CharClass) -> (r: Vec<char>)
    ensures
        r@ == trim_both(v@, k),
{
    let e = trim_end_chars(v, k);
    trim_start_chars(&e, k)
}

/// `String::from_utf8_lossy(bytes).trim()` as characters.
pub open spec fn spec_lossy_trim(bytes: Seq<u8>) -> Seq<char> {
    trim_ws(spec_utf8_lossy(bytes))
}

/// Reads `len` bytes at `off`, decodes them lossily and trims whitespace;
/// empty when the field runs past the end of the buffer.
pub open spec fn spec_field_text(b: Seq<u8>, off: int, len: int) -> Seq<char> {
    if b.len() < off + len {
        Seq::empty()
    } else {
        spec_lossy_trim(b.subrange(off, off + len))
    }
}

pub fn lossy_trim_chars(bytes: &[u8]) -> (r: Vec<char>)
    ensures
        r@ == spec_lossy_trim(bytes@),
{
    let decoded = utf8_lossy(bytes);
    trim_both_chars(&decoded, CharClass::Whitespace)
}

/// Copies `len` bytes at `off` into a new vector.
pub fn slice_range(b: &[u8], off: usize, len: usize) -> (r: Vec<u8>)
    requires
        off + len <= b.len(),
    ensures
        r@ == b@.subrange(off as int, off + len),
{
    crate::bytes::copy_range(b, off, len)
}

/// The text field of `len` bytes at `off`: lossily decoded and trimmed, or
/// empty when it would run past the end of the buffer.
pub fn field_text(b: &[u8], off: usize, len: usize) -> (r: String)
    ensures
        r@ == spec_field_text(b@, off as int, len as int),
{
    if off > b.len() || len > b.len() - off {
        return String::new();
    }
    let raw = slice_range(b, off, len);
    let chars = lossy_trim_chars(raw.as_slice());
    string_from_chars(&chars)
}

/// Whether two strings hold the same characters.
pub fn str_eq(a: &str, b: &str) -> (r: bool)
    ensures
        r == (a@ == b@),
{
    let x = chars_of(a);
    let y = chars_of(b);
    chars_eq(&x, &y)
}

pub fn chars_eq(x: &Vec<char>, y: &Vec<char>) -> (r: bool)
    ensures
        r == (x@ == y@),
{
    if x.len() != y.len() {
        return false;
    }
    let mut i: usize = 0;
    while i < x.len()
        invariant
            x.len() == y.len(),
            i <= x.len(),
            forall|j: int| 0 <= j < i ==> x@[j] == y@[j],
        decreases x.len() - i,
    {
        if x[i] != y[i] {
            return false;
        }
        i += 1;
    }
    assert(x@ =~= y@);
    true
}

/// Whether `c` occurs in `v`.
pub fn contains_char(v: &Vec<char>, c: char) -> (r: bool)
    ensures
        r == v@.contains(c),
{
    let mut i: usize = 0;
    while i < v.len()
        invariant
            i <= v.len(),
            forall|j: int| 0 <= j < i ==> v@[j] != c,
        decreases v.len() - i,
    {
        if v[i] == c {
            assert(v@[i as int] == c);
            return true;
        }
        i += 1;
    }
    false
}

/// Whether the string contains the character `c`.
pub fn str_contains(s: &str, c: char) -> (r: bool)
    ensures
        r == s@.contains(c),
{
    let v = chars_of(s);
    contains_char(&v, c)
}

/// Appends all of `src` to `dst`.
pub fn append_chars(dst: &mut Vec<char>, src: &Vec<char>)
    ensures
        final(dst)@ == old(dst)@ + src@,
{
    let mut i: usize = 0;
    let ghost start = dst@;
    while i < src.len()
        invariant
            i <= src.len(),
            dst@ == start + src@.take(i as int),
        decreases src.len() - i,
    {
        dst.push(src[i]);
        i += 1;
        assert(dst@ =~= start + src@.take(i as int));
    }
    assert(src@.take(src.len() as int) =~= src@);
}

/// Appends the characters of a string slice to `dst`.
pub fn append_str(dst: &mut Vec<char>, s: &str)
    ensures
        final(dst)@ == old(dst)@ + s@,
{
    let v = chars_of(s);
    append_chars(dst, &v);
}

/// The decimal digit character for `d < 10`.
pub open spec fn digit_char(d: nat) -> char {
    ((d + 48) as u8) as char
}

/// Decimal representation of `n`, without leading zeros (`"0"` for zero).
pub open spec fn spec_decimal(n: nat) -> Seq<char>
    decreases n,
{
    if n < 10 {
        seq![digit_char(n)]
    } else {
        spec_decimal(n / 10).push(digit_char(n % 10))
    }
}

/// A decimal digit character stands for its digit.
pub proof fn lemma_digit_char_value(d: nat)
    requires
        d < 10,
    ensures
        digit_char(d) as u32 == d + 48,
        '0' <= digit_char(d) <= '9',
{
    let b = (d + 48) as u8;
    assert(b == d + 48);
    assert((b as char) as u32 == b);
}

pub fn decimal_chars(n: u64) -> (r: Vec<char>)
    ensures
        r@ == spec_decimal(n as nat),
    decreases n,
{
    if n < 10 {
        let mut v: Vec<char> = Vec::new();
        v.push(((n as u8) + 48) as char);
        assert(v@ =~= seq![digit_char(n as nat)]);
        v
    } else {
        let mut v = decimal_chars(n / 10);
        v.push((((n % 10) as u8) + 48) as char);
        v
    }
}

/// Decimal text of `n` as a `String` (what `n.to_string()` gives).
pub fn decimal_string(n: u64) -> (r: String)
    ensures
        r@ == spec_decimal(n as nat),
{
    let v = decimal_chars(n);
    string_from_chars(&v)
}

/// Hexadecimal digit character for `d < 16`, upper or lower case.
pub open spec fn hex_digit(d: nat, upper: bool) -> char {
    if d < 10 {
        digit_char(d)
    } else if upper {
        ((d - 10 + 65) as u8) as char
    } else {
        ((d - 10 + 97) as u8) as char
    }
}

/// Two-digit hexadecimal text of a byte (`{:02X}` / `{:02x}`).
pub open spec fn spec_hex_byte(b: u8, upper: bool) -> Seq<char> {
    seq![hex_digit((b / 16) as nat, upper), hex_digit((b % 16) as nat, upper)]
}

/// Hexadecimal text of a byte sequence, two digits per byte.
pub open spec fn spec_hex(bytes: Seq<u8>, upper: bool) -> Seq<char>
    decreases bytes.len(),
{
    if bytes.len() == 0 {
        Seq::empty()
    } else {
        spec_hex(bytes.drop_last(), upper) + spec_hex_byte(bytes.last(), upper)
    }
}

pub fn hex_digit_char(d: u8, upper: bool) -> (c: char)
    requires
        d < 16,
    ensures
        c == hex_digit(d as nat, upper),
{
    if d < 10 {
        (d + 48) as char
    } else if upper {
        (d - 10 + 65) as char
    } else {
        (d - 10 + 97) as char
    }
}

/// Appends the two hexadecimal digits of `b`.
pub fn push_hex_byte(dst: &mut Vec<char>, b: u8, upper: bool)
    ensures
        final(dst)@ == old(dst)@ + spec_hex_byte(b, upper),
{
    dst.push(hex_digit_char(b / 16, upper));
    dst.push(hex_digit_char(b % 16, upper));
    assert(dst@ =~= old(dst)@ + spec_hex_byte(b, upper));
}

pub fn hex_chars(bytes: &[u8], upper: bool) -> (r: Vec<char>)
    ensures
        r@ == spec_hex(bytes@, upper),
{
    let mut out: Vec<char> = Vec::new();
    let mut i: usize = 0;
    while i < bytes.len()
        invariant
            i <= bytes.len(),
            out@ == spec_hex(bytes@.take(i as int), upper),
        decreases bytes.len() - i,
    {
        proof {
            assert(bytes@.take(i + 1).drop_last() =~= bytes@.take(i as int));
        }
        push_hex_byte(&mut out, bytes[i], upper);
        i += 1;
    }
    assert(bytes@.take(bytes.len() as int) =~= bytes@);
    out
}

/// Number of leading bytes of `s` below 0x80.
pub open spec fn ascii_prefix_len(s: Seq<u8>) -> nat
    decreases s.len(),
{
    if s.len() == 0 || s[0] >= 0x80 {
        0
    } else {
        1 + ascii_prefix_len(s.drop_first())
    }
}

/// Bytes read as the characters with the same code points.
pub open spec fn bytes_as_chars(s: Seq<u8>) -> Seq<char> {
    s.map_values(|b: u8| b as char)
}

/// The leading ASCII bytes of `b[lo..hi]` as characters.
pub fn ascii_prefix_chars(b: &[u8], lo: usize, hi: usize) -> (r: Vec<char>)
    requires
        lo <= hi <= b.len(),
    ensures
        r@ == bytes_as_chars(
            b@.subrange(lo as int, hi as int).take(
                ascii_prefix_len(b@.subrange(lo as int, hi as int)) as int,
            ),
        ),
{
    let ghost raw = b@.subrange(lo as int, hi as int);
    let mut out: Vec<char> = Vec::new();
    let mut i = lo;
    proof {
        assert(raw.skip(0) =~= raw);
    }
    while i < hi && b[i] < 0x80
        invariant
            lo <= i <= hi <= b.len(),
            raw == b@.subrange(lo as int, hi as int),
            out@ == bytes_as_chars(raw.take(i - lo)),
            ascii_prefix_len(raw) == (i - lo) + ascii_prefix_len(raw.skip(i - lo)),
        decreases hi - i,
    {
        proof {
            assert(raw.skip(i - lo).drop_first() =~= raw.skip(i - lo + 1));
            assert(raw.skip(i - lo)[0] == b@[i as int]);
        }
        out.push(b[i] as char);
        i += 1;
        assert(out@ =~= bytes_as_chars(raw.take(i - lo)));
    }
    proof {
        if i < hi {
            assert(raw.skip(i - lo)[0] == b@[i as int]);
        }
    }
    out
}


/// The character sequences of a vector of character vectors.
pub open spec fn char_seqs(v: Seq<Vec<char>>) -> Seq<Seq<char>> {
    v.map_values(|x: Vec<char>| x@)
}

/// The character sequences of a sequence of strings.
pub open spec fn string_seqs(v: Seq<String>) -> Seq<Seq<char>> {
    v.map_values(|x: String| x@)
}

/// `s` split at every `c` (`str::split` with a character pattern): always
/// at least one piece, and empty pieces where separators meet.
pub open spec fn split_on(s: Seq<char>, c: char) -> Seq<Seq<char>>
    decreases s.len(),
{
    if s.len() == 0 {
        seq![Seq::empty()]
    } else {
        let r = split_on(s.drop_last(), c);
        if s.last() == c {
            r.push(Seq::empty())
        } else {
            r.update(r.len() - 1, r.last().push(s.last()))
        }
    }
}

pub proof fn lemma_split_on_nonempty(s: Seq<char>, c: char)
    ensures
        split_on(s, c).len() >= 1,
    decreases s.len(),
{
    if s.len() > 0 {
        lemma_split_on_nonempty(s.drop_last(), c);
    }
}

pub fn split_chars(s: &Vec<char>, c: char) -> (r: Vec<Vec<char>>)
    ensures
        char_seqs(r@) == split_on(s@, c),
{
    let mut pieces: Vec<Vec<char>> = Vec::new();
    let mut current: Vec<char> = Vec::new();
    let mut i: usize = 0;
    assert(s@.take(0) =~= Seq::<char>::empty());
    assert(char_seqs(pieces@).push(current@) =~= seq![Seq::<char>::empty()]);
    while i < s.len()
        invariant
            i <= s.len(),
            split_on(s@.take(i as int), c) == char_seqs(pieces@).push(current@),
        decreases s.len() - i,
    {
        let ch = s[i];
        assert(s@.take(i + 1).drop_last() =~= s@.take(i as int));
        assert(s@.take(i + 1).last() == ch);
        if ch == c {
            let done = current;
            pieces.push(done);
            current = Vec::new();
            assert(char_seqs(pieces@).push(current@) =~= split_on(s@.take(i + 1), c));
        } else {
            current.push(ch);
            assert(char_seqs(pieces@).push(current@) =~= split_on(s@.take(i + 1), c));
        }
        i += 1;
    }
    assert(s@.take(i as int) =~= s@);
    pieces.push(current);
    assert(char_seqs(pieces@) =~= split_on(s@, c));
    pieces
}

/// The pieces joined with `sep` between neighbours (`[T]::join`).
pub open spec fn join_with(parts: Seq<Seq<char>>, sep: Seq<char>) -> Seq<char>
    decreases parts.len(),
{
    if parts.len() == 0 {
        Seq::empty()
    } else if parts.len() == 1 {
        parts[0]
    } else {
        join_with(parts.drop_last(), sep) + sep + parts.last()
    }
}

pub fn join_chars(parts: &Vec<Vec<char>>, sep: &str) -> (r: Vec<char>)
    ensures
        r@ == join_with(char_seqs(parts@), sep@),
{
    let mut out: Vec<char> = Vec::new();
    let mut i: usize = 0;
    let sep_chars = chars_of(sep);
    while i < parts.len()
        invariant
            i <= parts.len(),
            sep_chars@ == sep@,
            out@ == join_with(char_seqs(parts@.take(i as int)), sep@),
        decreases parts.len() - i,
    {
        assert(char_seqs(parts@.take(i + 1)).drop_last() =~= char_seqs(parts@.take(i as int)));
        assert(char_seqs(parts@.take(i + 1)).last() == parts@[i as int]@);
        if i > 0 {
            append_chars(&mut out, &sep_chars);
        }
        append_chars(&mut out, &parts[i]);
        i += 1;
        proof {
            if i == 1 {
                assert(out@ =~= join_with(char_seqs(parts@.take(i as int)), sep@));
            }
        }
    }
    assert(parts@.take(i as int) =~= parts@);
    out
}


/// Whether `p` is a prefix of `s`.
pub open spec fn spec_starts_with(s: Seq<char>, p: Seq<char>) -> bool {
    p.len() <= s.len() && s.take(p.len() as int) == p
}

pub fn str_starts_with(s: &str, p: &str) -> (r: bool)
    ensures
        r == spec_starts_with(s@, p@),
{
    let a = chars_of(s);
    let b = chars_of(p);
    if b.len() > a.len() {
        return false;
    }
    let mut i: usize = 0;
    while i < b.len()
        invariant
            a@ == s@,
            b@ == p@,
            b.len() <= a.len(),
            i <= b.len(),
            forall|j: int| 0 <= j < i ==> a@[j] == b@[j],
        decreases b.len() - i,
    {
        if a[i] != b[i] {
            assert(a@.take(b@.len() as int)[i as int] != b@[i as int]);
            return false;
        }
        i += 1;
    }
    assert(a@.take(b@.len() as int) =~= b@);
    true
}


/// The ASCII lower-case form of a character; other characters unchanged.
pub open spec fn ascii_lower(c: char) -> char {
    if 'A' <= c <= 'Z' {
        ((c as u32) + 32) as char
    } else {
        c
    }
}

/// Equal up to ASCII case (`str::eq_ignore_ascii_case`).
pub open spec fn spec_eq_ignore_ascii_case(a: Seq<char>, b: Seq<char>) -> bool {
    a.len() == b.len() && forall|i: int| 0 <= i < a.len() ==> #[trigger] ascii_lower(a[i]) == ascii_lower(b[i])
}

fn lower_char(c: char) -> (r: char)
    ensures
        r == ascii_lower(c),
{
    if 'A' <= c && c <= 'Z' {
        let v = (c as u32) + 32;
        assert(v == 0x61 || 0x61 < v <= 0x7A);
        char_from_ascii(v as u8)
    } else {
        c
    }
}

fn char_from_ascii(b: u8) -> (r: char)
    ensures
        r == b as char,
{
    b as char
}

pub fn str_eq_ignore_ascii_case(a: &str, b: &str) -> (r: bool)
    ensures
        r == spec_eq_ignore_ascii_case(a@, b@),
{
    let x = chars_of(a);
    let y = chars_of(b);
    if x.len() != y.len() {
        return false;
    }
    let mut i: usize = 0;
    while i < x.len()
        invariant
            x@ == a@,
            y@ == b@,
            x.len() == y.len(),
            i <= x.len(),
            forall|j: int| 0 <= j < i ==> #[trigger] ascii_lower(x@[j]) == ascii_lower(y@[j]),
        decreases x.len() - i,
    {
        if lower_char(x[i]) != lower_char(y[i]) {
            return false;
        }
        i += 1;
    }
    true
}

/// Hexadecimal text has two digits per byte.
pub proof fn law_hex_length(bytes: Seq<u8>, upper: bool)
    ensures
        spec_hex(bytes, upper).len() == 2 * bytes.len(),
    decreases bytes.len(),
{
    if bytes.len() > 0 {
        law_hex_length(bytes.drop_last(), upper);
    }
}

} // verus!
