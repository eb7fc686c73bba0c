//! Publisher names from the copyright field of a Sega cartridge header.

use crate::text::chars_of;
use crate::text::{digit_char, in_class, is_in_class, lemma_digit_char_value, spec_decimal, trim_start, trim_start_len, trim_start_chars, CharClass};
use vstd::prelude::*;

verus! {

/// The publisher of a Sega third-party T-code.
pub open spec fn spec_lookup_publisher(code: u16) -> Option<Seq<char>> {
    if code == 10 {
        Some("Takara"@)
    } else if code == 11 {
        Some("Taito/Accolade"@)
    } else if code == 12 {
        Some("Capcom"@)
    } else if code == 13 {
        Some("Data East"@)
    } else if code == 14 {
        Some("Namco/Tengen"@)
    } else if code == 15 {
        Some("Sunsoft"@)
    } else if code == 16 {
        Some("Bandai"@)
    } else if code == 17 {
        Some("Dempa"@)
    } else if code == 18 {
        Some("Technosoft"@)
    } else if code == 19 {
        Some("Technosoft"@)
    } else if code == 20 {
        Some("Asmik"@)
    } else if code == 22 {
        Some("Micronet"@)
    } else if code == 23 {
        Some("Vic Tokai"@)
    } else if code == 24 {
        Some("American Sammy"@)
    } else if code == 29 {
        Some("Kyugo"@)
    } else if code == 32 {
        Some("Wolfteam"@)
    } else if code == 33 {
        Some("Kaneko"@)
    } else if code == 35 {
        Some("Toaplan"@)
    } else if code == 36 {
        Some("Tecmo"@)
    } else if code == 40 {
        Some("Toaplan"@)
    } else if code == 42 {
        Some("UFL Company Limited"@)
    } else if code == 43 {
        Some("Human"@)
    } else if code == 45 {
        Some("Game Arts"@)
    } else if code == 47 {
        Some("Sage's Creation"@)
    } else if code == 48 {
        Some("Tengen"@)
    } else if code == 49 {
        Some("Renovation/Telenet"@)
    } else if code == 50 {
        Some("Electronic Arts"@)
    } else if code == 56 {
        Some("Razorsoft"@)
    } else if code == 58 {
        Some("Mentrix"@)
    } else if code == 60 {
        Some("Victor Musical Industries"@)
    } else if code == 69 {
        Some("Arena"@)
    } else if code == 70 {
        Some("Virgin"@)
    } else if code == 73 {
        Some("Soft Vision"@)
    } else if code == 74 {
        Some("Palsoft"@)
    } else if code == 76 {
        Some("Koei"@)
    } else if code == 79 {
        Some("U.S. Gold"@)
    } else if code == 81 {
        Some("Acclaim/Flying Edge"@)
    } else if code == 83 {
        Some("Gametek"@)
    } else if code == 86 {
        Some("Absolute"@)
    } else if code == 93 {
        Some("Sony"@)
    } else if code == 95 {
        Some("Konami"@)
    } else if code == 97 {
        Some("Tradewest"@)
    } else if code == 100 {
        Some("T*HQ"@)
    } else if code == 101 {
        Some("Tecmagik"@)
    } else if code == 112 {
        Some("Designer Software"@)
    } else if code == 113 {
        Some("Psygnosis"@)
    } else if code == 119 {
        Some("Accolade"@)
    } else if code == 120 {
        Some("Codemasters"@)
    } else if code == 125 {
        Some("Interplay"@)
    } else if code == 130 {
        Some("Activision"@)
    } else if code == 132 {
        Some("Shiny/Playmates"@)
    } else if code == 144 {
        Some("Atlus"@)
    } else if code == 151 {
        Some("Infogrames"@)
    } else if code == 161 {
        Some("Fox Interactive"@)
    } else if code == 239 {
        Some("Disney Interactive"@)
    } else {
        None
    }
}

/// Look up a Sega third-party publisher by its numeric T-code.
pub fn lookup_publisher(code: u16) -> (r: Option<&'static str>)
    ensures
        match r {
            Some(s) => spec_lookup_publisher(code) == Some(s@),
            None => spec_lookup_publisher(code) is None,
        },
{
    if code == 10 {
        Some("Takara")
    } else if code == 11 {
        Some("Taito/Accolade")
    } else if code == 12 {
        Some("Capcom")
    } else if code == 13 {
        Some("Data East")
    } else if code == 14 {
        Some("Namco/Tengen")
    } else if code == 15 {
        Some("Sunsoft")
    } else if code == 16 {
        Some("Bandai")
    } else if code == 17 {
        Some("Dempa")
    } else if code == 18 {
        Some("Technosoft")
    } else if code == 19 {
        Some("Technosoft")
    } else if code == 20 {
        Some("Asmik")
    } else if code == 22 {
        Some("Micronet")
    } else if code == 23 {
        Some("Vic Tokai")
    } else if code == 24 {
        Some("American Sammy")
    } else if code == 29 {
        Some("Kyugo")
    } else if code == 32 {
        Some("Wolfteam")
    } else if code == 33 {
        Some("Kaneko")
    } else if code == 35 {
        Some("Toaplan")
    } else if code == 36 {
        Some("Tecmo")
    } else if code == 40 {
        Some("Toaplan")
    } else if code == 42 {
        Some("UFL Company Limited")
    } else if code == 43 {
        Some("Human")
    } else if code == 45 {
        Some("Game Arts")
    } else if code == 47 {
        Some("Sage's Creation")
    } else if code == 48 {
        Some("Tengen")
    } else if code == 49 {
        Some("Renovation/Telenet")
    } else if code == 50 {
        Some("Electronic Arts")
    } else if code == 56 {
        Some("Razorsoft")
    } else if code == 58 {
        Some("Mentrix")
    } else if code == 60 {
        Some("Victor Musical Industries")
    } else if code == 69 {
        Some("Arena")
    } else if code == 70 {
        Some("Virgin")
    } else if code == 73 {
        Some("Soft Vision")
    } else if code == 74 {
        Some("Palsoft")
    } else if code == 76 {
        Some("Koei")
    } else if code == 79 {
        Some("U.S. Gold")
    } else if code == 81 {
        Some("Acclaim/Flying Edge")
    } else if code == 83 {
        Some("Gametek")
    } else if code == 86 {
        Some("Absolute")
    } else if code == 93 {
        Some("Sony")
    } else if code == 95 {
        Some("Konami")
    } else if code == 97 {
        Some("Tradewest")
    } else if code == 100 {
        Some("T*HQ")
    } else if code == 101 {
        Some("Tecmagik")
    } else if code == 112 {
        Some("Designer Software")
    } else if code == 113 {
        Some("Psygnosis")
    } else if code == 119 {
        Some("Accolade")
    } else if code == 120 {
        Some("Codemasters")
    } else if code == 125 {
        Some("Interplay")
    } else if code == 130 {
        Some("Activision")
    } else if code == 132 {
        Some("Shiny/Playmates")
    } else if code == 144 {
        Some("Atlus")
    } else if code == 151 {
        Some("Infogrames")
    } else if code == 161 {
        Some("Fox Interactive")
    } else if code == 239 {
        Some("Disney Interactive")
    } else {
        None
    }
}

/// The publisher of an alphabetic copyright code.
pub open spec fn spec_alpha_publisher(w: Seq<char>) -> Option<Seq<char>> {
    if w == "SEGA"@ {
        Some("Sega"@)
    } else if w == "ACLD"@ {
        Some("Ballistic"@)
    } else if w == "ASCI"@ {
        Some("Asciiware"@)
    } else if w == "RSI"@ {
        Some("Razorsoft"@)
    } else if w == "TREC"@ {
        Some("Treco"@)
    } else if w == "VRGN"@ {
        Some("Virgin Games"@)
    } else if w == "WSTN"@ {
        Some("Westone"@)
    } else {
        None
    }
}

/// Length of the leading run of characters that are not whitespace.
pub open spec fn word_len(s: Seq<char>) -> nat
    decreases s.len(),
{
    if s.len() == 0 || in_class(s[0], CharClass::Whitespace) {
        0
    } else {
        1 + word_len(s.drop_first())
    }
}

/// Length of the leading run of ASCII digits.
pub open spec fn digits_len(s: Seq<char>) -> nat
    decreases s.len(),
{
    if s.len() == 0 || !('0' <= s[0] <= '9') {
        0
    } else {
        1 + digits_len(s.drop_first())
    }
}

/// The value of a string of ASCII digits.
pub open spec fn digits_value(s: Seq<char>) -> nat
    decreases s.len(),
{
    if s.len() == 0 {
        0
    } else {
        digits_value(s.drop_last()) * 10 + ((s.last() as int - '0' as int) as nat)
    }
}

/// `s` with a leading `(C)` or `(c)` removed, then leading whitespace.
pub open spec fn copyright_rest(s: Seq<char>) -> Seq<char> {
    let stripped = if s.len() >= 3 && (s.take(3) == "(C)"@ || s.take(3) == "(c)"@) {
        s.skip(3)
    } else {
        s
    };
    trim_start(stripped, CharClass::Whitespace)
}

/// The publisher named by a copyright field such as `(C)T-12 1993.SEP` or
/// `(C)SEGA 1991.JUN`: an alphabetic code's publisher, else the publisher of
/// a numeric `T-` code that fits 16 bits.
pub open spec fn spec_publisher_from_copyright(s: Seq<char>) -> Option<Seq<char>> {
    let rest = copyright_rest(s);
    if rest.len() == 0 {
        None
    } else if spec_alpha_publisher(rest.take(word_len(rest) as int)) is Some {
        spec_alpha_publisher(rest.take(word_len(rest) as int))
    } else if rest.len() >= 2 && rest[0] == 'T' && rest[1] == '-' {
        let t = rest.skip(2);
        let digits = t.take(digits_len(t) as int);
        if digits.len() == 0 || digits_value(digits) > 0xFFFF {
            None
        } else {
            spec_lookup_publisher(digits_value(digits) as u16)
        }
    } else {
        None
    }
}

proof fn lemma_digits_value_mono(s: Seq<char>, n: int)
    requires
        0 <= n <= s.len(),
        forall|i: int| 0 <= i < s.len() ==> '0' <= #[trigger] s[i] <= '9',
    ensures
        digits_value(s.take(n)) <= digits_value(s),
    decreases s.len() - n,
{
    if n < s.len() {
        lemma_digits_value_mono(s, n + 1);
        assert(s.take(n + 1).drop_last() =~= s.take(n));
    } else {
        assert(s.take(n) =~= s);
    }
}

fn alpha_publisher(w: &Vec<char>) -> (r: Option<&'static str>)
    ensures
        match r {
            Some(p) => spec_alpha_publisher(w@) == Some(p@),
            None => spec_alpha_publisher(w@) is None,
        },
{
    let codes: [&str; 7] = ["SEGA", "ACLD", "ASCI", "RSI", "TREC", "VRGN", "WSTN"];
    let names: [&str; 7] = [
        "Sega",
        "Ballistic",
        "Asciiware",
        "Razorsoft",
        "Treco",
        "Virgin Games",
        "Westone",
    ];
    let mut k: usize = 0;
    while k < 7
        invariant
            k <= 7,
            codes@ == seq!["SEGA", "ACLD", "ASCI", "RSI", "TREC", "VRGN", "WSTN"],
            names@ == seq![
                "Sega",
                "Ballistic",
                "Asciiware",
                "Razorsoft",
                "Treco",
                "Virgin Games",
                "Westone",
            ],
            forall|j: int| 0 <= j < k ==> w@ != (#[trigger] codes@[j])@,
        decreases 7 - k,
    {
        let c = chars_of(codes[k]);
        if crate::text::chars_eq(w, &c) {
            return Some(names[k]);
        }
        k += 1;
    }
    assert(w@ != codes@[0]@ && w@ != codes@[1]@ && w@ != codes@[2]@ && w@ != codes@[3]@ && w@
        != codes@[4]@ && w@ != codes@[5]@ && w@ != codes@[6]@);
    None
}

/// Parse the copyright field of a Sega header and look up its publisher.
pub fn publisher_from_copyright(copyright: &str) -> (r: Option<&'static str>)
    ensures
        match r {
            Some(p) => spec_publisher_from_copyright(copyright@) == Some(p@),
            None => spec_publisher_from_copyright(copyright@) is None,
        },
{
    let s = chars_of(copyright);
    let prefixed = s.len() >= 3 && s[0] == '(' && (s[1] == 'C' || s[1] == 'c') && s[2] == ')';
    proof {
        reveal_strlit("(C)");
        reveal_strlit("(c)");
        if s@.len() >= 3 {
            assert(prefixed == (s@.take(3) == "(C)"@ || s@.take(3) == "(c)"@)) by {
                if s@.take(3) == "(C)"@ {
                    assert(s@.take(3)[0] == '(' && s@.take(3)[1] == 'C' && s@.take(3)[2] == ')');
                    assert(s@[0] == '(' && s@[1] == 'C' && s@[2] == ')');
                }
                if s@.take(3) == "(c)"@ {
                    assert(s@.take(3)[0] == '(' && s@.take(3)[1] == 'c' && s@.take(3)[2] == ')');
                    assert(s@[0] == '(' && s@[1] == 'c' && s@[2] == ')');
                }
                if prefixed {
                    if s@[1] == 'C' {
                        assert(s@.take(3) =~= "(C)"@);
                    } else {
                        assert(s@.take(3) =~= "(c)"@);
                    }
                }
            }
        }
    }
    let stripped = if prefixed {
        crate::text::sub_chars(&s, 3, s.len())
    } else {
        crate::text::sub_chars(&s, 0, s.len())
    };
    assert(prefixed ==> stripped@ =~= s@.skip(3));
    assert(!prefixed ==> stripped@ =~= s@);
    let rest = trim_start_chars(&stripped, CharClass::Whitespace);
    if rest.len() == 0 {
        return None;
    }
    let mut n: usize = 0;
    assert(rest@.skip(0) =~= rest@);
    while n < rest.len() && !is_in_class(rest[n], CharClass::Whitespace)
        invariant
            n <= rest.len(),
            word_len(rest@) == n + word_len(rest@.skip(n as int)),
        decreases rest.len() - n,
    {
        assert(rest@.skip(n as int).drop_first() =~= rest@.skip(n + 1));
        n += 1;
    }
    proof {
        if n < rest.len() {
            assert(rest@.skip(n as int)[0] == rest@[n as int]);
        }
    }
    let word = crate::text::sub_chars(&rest, 0, n);
    assert(word@ =~= rest@.take(n as int));
    match alpha_publisher(&word) {
        Some(p) => {
            return Some(p);
        },
        None => {},
    }
    if !(rest.len() >= 2 && rest[0] == 'T' && rest[1] == '-') {
        return None;
    }
    assert(rest@ == copyright_rest(copyright@));
    assert(spec_alpha_publisher(rest@.take(word_len(rest@) as int)) is None);
    let ghost t = rest@.skip(2);
    let mut i: usize = 2;
    let mut value: u32 = 0;
    assert(t.skip(0) =~= t);
    assert(t.take(0) =~= Seq::<char>::empty());
    while i < rest.len() && '0' <= rest[i] && rest[i] <= '9'
        invariant
            2 <= i <= rest.len(),
            t == rest@.skip(2),
            rest@ == copyright_rest(copyright@),
            spec_alpha_publisher(rest@.take(word_len(rest@) as int)) is None,
            rest@.len() >= 2 && rest@[0] == 'T' && rest@[1] == '-',
            digits_len(t) == (i - 2) + digits_len(t.skip(i - 2)),
            forall|j: int| 0 <= j < i - 2 ==> '0' <= #[trigger] t[j] <= '9',
            value == digits_value(t.take(i - 2)),
            value <= 0xFFFF,
        decreases rest.len() - i,
    {
        let d = rest[i];
        assert(t.skip(i - 2).drop_first() =~= t.skip(i - 1));
        assert(t.skip(i - 2)[0] == d);
        assert(t.take(i - 1).drop_last() =~= t.take(i - 2));
        assert(t.take(i - 1).last() == d);
        let next: u32 = value * 10 + ((d as u32) - 48);
        let ghost old_i = i;
        proof {
            assert(digits_len(t.skip(old_i - 2)) >= 1);
            assert(digits_len(t) >= old_i - 1);
            assert(digits_value(t.take(old_i - 1)) == next);
        }
        i += 1;
        if next > 0xFFFF {
            proof {
                let full = t.take(digits_len(t) as int);
                lemma_digits_len_bound(t);
                assert forall|j: int| 0 <= j < full.len() implies '0' <= #[trigger] full[j] <= '9' by {
                    lemma_digit_prefix(t, j);
                    assert(full[j] == t[j]);
                }
                lemma_digits_value_mono(full, i - 2);
                assert(full.take(i - 2) =~= t.take(i - 2)) by {
                    lemma_digits_len_bound(t);
                }
                assert(digits_value(full) > 0xFFFF);
                assert(rest@ == copyright_rest(copyright@));
                assert(spec_alpha_publisher(rest@.take(word_len(rest@) as int)) is None);
                assert(spec_publisher_from_copyright(copyright@) is None);
            }
            return None;
        }
        value = next;
    }
    proof {
        if i < rest.len() {
            assert(t.skip(i - 2)[0] == rest@[i as int]);
        }
        assert(t.take(digits_len(t) as int) =~= t.take(i - 2));
    }
    if i == 2 {
        return None;
    }
    lookup_publisher(value as u16)
}

proof fn lemma_digits_len_bound(s: Seq<char>)
    ensures
        digits_len(s) <= s.len(),
    decreases s.len(),
{
    if s.len() > 0 && '0' <= s[0] <= '9' {
        lemma_digits_len_bound(s.drop_first());
    }
}

proof fn lemma_digit_prefix(s: Seq<char>, j: int)
    requires
        0 <= j < digits_len(s),
    ensures
        '0' <= s[j] <= '9',
    decreases s.len(),
{
    lemma_digits_len_bound(s);
    if j > 0 {
        lemma_digit_prefix(s.drop_first(), j - 1);
        assert(s.drop_first()[j - 1] == s[j]);
    }
}

proof fn lemma_word_len_bound(s: Seq<char>)
    ensures
        word_len(s) <= s.len(),
    decreases s.len(),
{
    if s.len() > 0 && !in_class(s[0], CharClass::Whitespace) {
        lemma_word_len_bound(s.drop_first());
    }
}

/// The decimal text of `n` is a non-empty run of digits whose value is `n`.
proof fn lemma_decimal_digits(n: nat)
    ensures
        spec_decimal(n).len() >= 1,
        forall|i: int| 0 <= i < spec_decimal(n).len() ==> '0' <= #[trigger] spec_decimal(n)[i] <= '9',
        digits_value(spec_decimal(n)) == n,
    decreases n,
{
    lemma_digit_char_value(n % 10);
    let d = spec_decimal(n);
    let c = digit_char(n % 10);
    assert(c as int == n % 10 + 48);
    assert('0' as int == 48);
    if n < 10 {
        assert(d.drop_last() =~= Seq::<char>::empty());
        assert(d.last() == c);
        assert(digits_value(d) == digits_value(d.drop_last()) * 10 + ((d.last() as int - '0' as int) as nat));
    } else {
        lemma_decimal_digits(n / 10);
        assert(d.drop_last() =~= spec_decimal(n / 10));
        assert(d.last() == c);
        assert(digits_value(d) == digits_value(d.drop_last()) * 10 + ((d.last() as int - '0' as int) as nat));
        assert(n == (n / 10) * 10 + n % 10);
    }
}

/// A run of digits followed by nothing or a non-digit is read whole.
proof fn lemma_digits_len_concat(a: Seq<char>, b: Seq<char>)
    requires
        forall|i: int| 0 <= i < a.len() ==> '0' <= #[trigger] a[i] <= '9',
        b.len() == 0 || !('0' <= b[0] <= '9'),
    ensures
        digits_len(a + b) == a.len(),
    decreases a.len(),
{
    if a.len() > 0 {
        assert((a + b).drop_first() =~= a.drop_first() + b);
        assert((a + b)[0] == a[0]);
        lemma_digits_len_concat(a.drop_first(), b);
    } else {
        assert(a + b =~= b);
    }
}

/// A copyright field `(C)T-` followed by the decimal text of a 16-bit code
/// and then nothing or a non-digit names that code's publisher.
pub proof fn law_publisher_from_t_code(n: u16, rest: Seq<char>)
    requires
        rest.len() == 0 || !('0' <= rest[0] <= '9'),
    ensures
        spec_publisher_from_copyright("(C)T-"@ + spec_decimal(n as nat) + rest)
            == spec_lookup_publisher(n),
{
    reveal_strlit("(C)T-");
    reveal_strlit("(C)");
    reveal_strlit("SEGA");
    reveal_strlit("ACLD");
    reveal_strlit("ASCI");
    reveal_strlit("RSI");
    reveal_strlit("TREC");
    reveal_strlit("VRGN");
    reveal_strlit("WSTN");
    let dec = spec_decimal(n as nat);
    lemma_decimal_digits(n as nat);
    let s = "(C)T-"@ + dec + rest;
    let r = seq!['T', '-'] + dec + rest;
    assert(s.take(3) =~= "(C)"@);
    assert(s.skip(3) =~= r);
    assert(r[0] == 'T');
    assert(!in_class(r[0], CharClass::Whitespace));
    assert(trim_start_len(r, CharClass::Whitespace) == 0);
    assert(r.skip(0) =~= r);
    assert(copyright_rest(s) == r);
    let r1 = r.drop_first();
    assert(r1[0] == '-');
    assert(!in_class(r1[0], CharClass::Whitespace));
    assert(word_len(r1) == 1 + word_len(r1.drop_first()));
    assert(word_len(r) >= 2);
    lemma_word_len_bound(r);
    let w = r.take(word_len(r) as int);
    assert(w[0] == 'T' && w[1] == '-');
    assert(w != "SEGA"@ && w != "ACLD"@ && w != "ASCI"@ && w != "RSI"@);
    assert(w != "TREC"@ && w != "VRGN"@ && w != "WSTN"@);
    assert(spec_alpha_publisher(w) is None);
    let t = r.skip(2);
    assert(t =~= dec + rest);
    lemma_digits_len_concat(dec, rest);
    assert(t.take(digits_len(t) as int) =~= dec);
}

} // verus!
