//! The text of the inspector's reports: number formats and the lines that
//! every report shares (title, checksum, SHA-1).

use crate::ext::{spec_utf8_lossy, utf8_lossy};
use crate::text::{append_chars, append_str, decimal_chars, hex_chars, hex_digit, hex_digit_char, spec_decimal, spec_hex};
use vstd::prelude::*;

verus! {

/// Upper-case hexadecimal digits of `v`, without leading zeros (`{:X}`).
pub open spec fn hex_min(v: nat) -> Seq<char>
    decreases v,
{
    if v < 16 {
        seq![hex_digit(v, true)]
    } else {
        hex_min(v / 16).push(hex_digit(v % 16, true))
    }
}

/// `n` copies of `c`.
pub open spec fn repeat_char(c: char, n: nat) -> Seq<char> {
    Seq::new(n, |i: int| c)
}

/// Upper-case hexadecimal, zero-padded to at least `n` digits (`{:0nX}`).
pub open spec fn hex_padded(v: nat, n: nat) -> Seq<char> {
    let h = hex_min(v);
    if h.len() >= n {
        h
    } else {
        repeat_char('0', (n - h.len()) as nat) + h
    }
}

/// Decimal text right-aligned in a field of `w` characters (`{:w}`).
pub open spec fn dec_padded(v: nat, w: nat) -> Seq<char> {
    let d = spec_decimal(v);
    if d.len() >= w {
        d
    } else {
        repeat_char(' ', (w - d.len()) as nat) + d
    }
}

/// `true` or `false`, as a `bool` prints.
pub open spec fn bool_text(b: bool) -> Seq<char> {
    if b {
        "true"@
    } else {
        "false"@
    }
}

fn hex_min_chars(v: u64) -> (r: Vec<char>)
    ensures
        r@ == hex_min(v as nat),
    decreases v,
{
    if v < 16 {
        let mut r: Vec<char> = Vec::new();
        r.push(hex_digit_char(v as u8, true));
        assert(r@ =~= hex_min(v as nat));
        r
    } else {
        let mut r = hex_min_chars(v / 16);
        r.push(hex_digit_char((v % 16) as u8, true));
        r
    }
}

fn push_repeat(out: &mut Vec<char>, c: char, n: usize)
    ensures
        final(out)@ == old(out)@ + repeat_char(c, n as nat),
{
    let mut i: usize = 0;
    while i < n
        invariant
            i <= n,
            out@ == old(out)@ + repeat_char(c, i as nat),
        decreases n - i,
    {
        out.push(c);
        i += 1;
        assert(out@ =~= old(out)@ + repeat_char(c, i as nat));
    }
}

/// Appends `v` in upper-case hexadecimal, zero-padded to `n` digits.
pub fn push_hex_padded(out: &mut Vec<char>, v: u64, n: usize)
    ensures
        final(out)@ == old(out)@ + hex_padded(v as nat, n as nat),
{
    let h = hex_min_chars(v);
    if h.len() < n {
        push_repeat(out, '0', n - h.len());
    }
    append_chars(out, &h);
    assert(final(out)@ =~= old(out)@ + hex_padded(v as nat, n as nat));
}

/// Appends `v` in decimal, right-aligned in `w` characters.
pub fn push_dec_padded(out: &mut Vec<char>, v: u64, w: usize)
    ensures
        final(out)@ == old(out)@ + dec_padded(v as nat, w as nat),
{
    let d = decimal_chars(v);
    if d.len() < w {
        push_repeat(out, ' ', w - d.len());
    }
    append_chars(out, &d);
    assert(final(out)@ =~= old(out)@ + dec_padded(v as nat, w as nat));
}

/// Appends `v` in decimal.
pub fn push_dec(out: &mut Vec<char>, v: u64)
    ensures
        final(out)@ == old(out)@ + spec_decimal(v as nat),
{
    let d = decimal_chars(v);
    append_chars(out, &d);
}

/// Appends `true` or `false`.
pub fn push_bool(out: &mut Vec<char>, b: bool)
    ensures
        final(out)@ == old(out)@ + bool_text(b),
{
    if b {
        append_str(out, "true");
    } else {
        append_str(out, "false");
    }
}

/// A stored checksum against the calculated one, both `width` hex digits:
/// one line when they agree, two when they differ (no final line break).
pub open spec fn checksum_text(stored: nat, calculated: nat, width: nat) -> Seq<char> {
    if stored == calculated {
        "Stored Checksum: "@ + hex_padded(stored, width) + " is valid"@
    } else {
        "Stored Checksum:     "@ + hex_padded(stored, width) + "\n"@ + "Calculated Checksum: "@
            + hex_padded(calculated, width)
    }
}

/// Appends the checksum text of a stored and a calculated checksum.
pub fn push_checksum(out: &mut Vec<char>, stored: u64, calculated: u64, width: usize)
    ensures
        final(out)@ == old(out)@ + checksum_text(stored as nat, calculated as nat, width as nat),
{
    let mut t: Vec<char> = Vec::new();
    if stored == calculated {
        append_str(&mut t, "Stored Checksum: ");
        push_hex_padded(&mut t, stored, width);
        append_str(&mut t, " is valid");
    } else {
        append_str(&mut t, "Stored Checksum:     ");
        push_hex_padded(&mut t, stored, width);
        append_str(&mut t, "\n");
        append_str(&mut t, "Calculated Checksum: ");
        push_hex_padded(&mut t, calculated, width);
    }
    assert(t@ =~= checksum_text(stored as nat, calculated as nat, width as nat));
    append_chars(out, &t);
}

/// A pair of 32-bit checksums as `(XXXXXXXX,XXXXXXXX)`.
pub open spec fn pair_text(p: (u32, u32)) -> Seq<char> {
    "("@ + hex_padded(p.0 as nat, 8) + ","@ + hex_padded(p.1 as nat, 8) + ")"@
}

/// The checksum text of a stored and a calculated pair of checksums.
pub open spec fn checksum_pair_text(stored: (u32, u32), calculated: (u32, u32)) -> Seq<char> {
    if stored == calculated {
        "Stored Checksum: "@ + pair_text(stored) + " is valid"@
    } else {
        "Stored Checksum:     "@ + pair_text(stored) + "\n"@ + "Calculated Checksum: "@ + pair_text(
            calculated,
        )
    }
}

fn push_pair(out: &mut Vec<char>, p: (u32, u32))
    ensures
        final(out)@ == old(out)@ + pair_text(p),
{
    let mut t: Vec<char> = Vec::new();
    append_str(&mut t, "(");
    push_hex_padded(&mut t, p.0 as u64, 8);
    append_str(&mut t, ",");
    push_hex_padded(&mut t, p.1 as u64, 8);
    append_str(&mut t, ")");
    assert(t@ =~= pair_text(p));
    append_chars(out, &t);
}

/// Appends the checksum text of a stored and a calculated pair.
pub fn push_checksum_pair(out: &mut Vec<char>, stored: (u32, u32), calculated: (u32, u32))
    ensures
        final(out)@ == old(out)@ + checksum_pair_text(stored, calculated),
{
    let mut t: Vec<char> = Vec::new();
    if stored.0 == calculated.0 && stored.1 == calculated.1 {
        append_str(&mut t, "Stored Checksum: ");
        push_pair(&mut t, stored);
        append_str(&mut t, " is valid");
    } else {
        append_str(&mut t, "Stored Checksum:     ");
        push_pair(&mut t, stored);
        append_str(&mut t, "\n");
        append_str(&mut t, "Calculated Checksum: ");
        push_pair(&mut t, calculated);
    }
    assert(t@ =~= checksum_pair_text(stored, calculated));
    append_chars(out, &t);
}

/// `SHA1: ` and the digest in upper-case hexadecimal (no line break).
pub open spec fn sha1_text(h: Seq<u8>) -> Seq<char> {
    "SHA1: "@ + spec_hex(h, true)
}

/// Appends the SHA-1 text of a digest.
pub fn push_sha1(out: &mut Vec<char>, h: &[u8; 20])
    ensures
        final(out)@ == old(out)@ + sha1_text(h@),
{
    let mut t: Vec<char> = Vec::new();
    append_str(&mut t, "SHA1: ");
    let x = hex_chars(h.as_slice(), true);
    append_chars(&mut t, &x);
    assert(t@ =~= sha1_text(h@));
    append_chars(out, &t);
}

/// The title line of a report.
pub open spec fn title_line(t: Seq<char>) -> Seq<char> {
    "Game Title: "@ + t + "\n"@
}

/// Appends the title line of a report.
pub fn push_title_line(out: &mut Vec<char>, t: &str)
    ensures
        final(out)@ == old(out)@ + title_line(t@),
{
    let mut x: Vec<char> = Vec::new();
    append_str(&mut x, "Game Title: ");
    append_str(&mut x, t);
    append_str(&mut x, "\n");
    assert(x@ =~= title_line(t@));
    append_chars(out, &x);
}

/// Text left-aligned in a field of `w` characters (`{:<w}`).
pub open spec fn left_padded(s: Seq<char>, w: nat) -> Seq<char> {
    if s.len() >= w {
        s
    } else {
        s + repeat_char(' ', (w - s.len()) as nat)
    }
}

/// Appends text left-aligned in a field of `w` characters.
pub fn push_left_padded(out: &mut Vec<char>, s: &Vec<char>, w: usize)
    ensures
        final(out)@ == old(out)@ + left_padded(s@, w as nat),
{
    append_chars(out, s);
    if s.len() < w {
        push_repeat(out, ' ', w - s.len());
    }
    assert(final(out)@ =~= old(out)@ + left_padded(s@, w as nat));
}

/// A number zero-padded to at least `w` digits (`{:0w}`).
pub open spec fn dec_zero_padded(v: nat, w: nat) -> Seq<char> {
    let d = spec_decimal(v);
    if d.len() >= w {
        d
    } else {
        repeat_char('0', (w - d.len()) as nat) + d
    }
}

/// Appends a number zero-padded to at least `w` digits.
pub fn push_dec_zero_padded(out: &mut Vec<char>, v: u64, w: usize)
    ensures
        final(out)@ == old(out)@ + dec_zero_padded(v as nat, w as nat),
{
    let d = decimal_chars(v);
    if d.len() < w {
        push_repeat(out, '0', w - d.len());
    }
    append_chars(out, &d);
    assert(final(out)@ =~= old(out)@ + dec_zero_padded(v as nat, w as nat));
}

/// Appends `v` in upper-case hexadecimal without leading zeros.
pub fn push_hex_min(out: &mut Vec<char>, v: u64)
    ensures
        final(out)@ == old(out)@ + hex_min(v as nat),
{
    let h = hex_min_chars(v);
    append_chars(out, &h);
}

/// The maker line of a two-character maker code: the maker's name where the
/// code is known, with the code as text.
pub open spec fn maker_code_line(name: Option<Seq<char>>, code: Seq<u8>) -> Seq<char> {
    match name {
        Some(n) => "Maker: "@ + n + " (\""@ + spec_utf8_lossy(code) + "\")\n"@,
        None => "Maker: \""@ + spec_utf8_lossy(code) + "\"\n"@,
    }
}

/// Appends the maker line of a maker code.
pub fn push_maker_code_line(out: &mut Vec<char>, name: Option<&str>, code: &[u8])
    ensures
        final(out)@ == old(out)@ + maker_code_line(
            match name {
                Some(n) => Some(n@),
                None => None,
            },
            code@,
        ),
{
    let text = utf8_lossy(code);
    let mut t: Vec<char> = Vec::new();
    match name {
        Some(n) => {
            append_str(&mut t, "Maker: ");
            append_str(&mut t, n);
            append_str(&mut t, " (\"");
            append_chars(&mut t, &text);
            append_str(&mut t, "\")\n");
        },
        None => {
            append_str(&mut t, "Maker: \"");
            append_chars(&mut t, &text);
            append_str(&mut t, "\"\n");
        },
    }
    assert(t@ =~= maker_code_line(
        match name {
            Some(n) => Some(n@),
            None => None,
        },
        code@,
    ));
    append_chars(out, &t);
}

/// A labelled line when the value is present.
pub open spec fn opt_line(label: Seq<char>, v: Option<Seq<char>>) -> Seq<char> {
    match v {
        Some(x) => label + x + "\n"@,
        None => Seq::empty(),
    }
}

/// Appends a labelled line when the value is present.
pub fn push_opt_line(out: &mut Vec<char>, label: &str, v: Option<&str>)
    ensures
        final(out)@ == old(out)@ + opt_line(
            label@,
            match v {
                Some(x) => Some(x@),
                None => None,
            },
        ),
{
    let mut t: Vec<char> = Vec::new();
    if let Some(x) = v {
        append_str(&mut t, label);
        append_str(&mut t, x);
        append_str(&mut t, "\n");
    }
    assert(t@ =~= opt_line(
        label@,
        match v {
            Some(x) => Some(x@),
            None => None,
        },
    ));
    append_chars(out, &t);
}

} // verus!
