//! Verified text utilities: string equality, ASCII case folding, substring
//! search, and decimal rendering of numbers.
//!
//! Every contract in the crate that speaks about produced strings does so
//! through the spec functions of this module (`dec_rep`, `int_rep`,
//! `bonus_rep`, `lower_chars`, ...).

use vstd::prelude::*;

verus! {

// ---------------------------------------------------------------------------
// Decimal rendering
// ---------------------------------------------------------------------------

/// The character for a single decimal digit (0 through 9).
pub open spec fn digit_char(d: int) -> char {
    (48 + d) as char
}

/// The usual decimal representation of a non-negative integer,
/// most significant digit first, no sign and no leading zeros.
pub open spec fn dec_rep(n: int) -> Seq<char>
    decreases n,
{
    if n < 10 {
        seq![digit_char(n)]
    } else {
        dec_rep(n / 10).push(digit_char(n % 10))
    }
}

/// Decimal representation of a signed integer: a leading '-' for negative
/// values, no sign otherwise (the rendering `to_string` gives).
pub open spec fn int_rep(n: int) -> Seq<char> {
    if n >= 0 {
        dec_rep(n)
    } else {
        seq!['-'] + dec_rep(-n)
    }
}

/// Rendering of a modifier or bonus with an explicit sign: non-negative
/// values get a leading '+', so zero renders as "+0".
pub open spec fn bonus_rep(n: int) -> Seq<char> {
    if n >= 0 {
        seq!['+'] + dec_rep(n)
    } else {
        seq!['-'] + dec_rep(-n)
    }
}

fn digit_str(d: u32) -> (s: &'static str)
    requires
        d < 10,
    ensures
        s@ =~= seq![digit_char(d as int)],
{
    proof {
        reveal_strlit("0");
        reveal_strlit("1");
        reveal_strlit("2");
        reveal_strlit("3");
        reveal_strlit("4");
        reveal_strlit("5");
        reveal_strlit("6");
        reveal_strlit("7");
        reveal_strlit("8");
        reveal_strlit("9");
    }
    if d == 0 {
        "0"
    } else if d == 1 {
        "1"
    } else if d == 2 {
        "2"
    } else if d == 3 {
        "3"
    } else if d == 4 {
        "4"
    } else if d == 5 {
        "5"
    } else if d == 6 {
        "6"
    } else if d == 7 {
        "7"
    } else if d == 8 {
        "8"
    } else {
        "9"
    }
}

/// Renders a non-negative number in decimal.
pub fn u32_to_string(n: u32) -> (s: String)
    ensures
        s@ == dec_rep(n as int),
    decreases n,
{
    if n < 10 {
        let s = String::from_str(digit_str(n));
        proof {
            assert(s@ =~= dec_rep(n as int));
        }
        s
    } else {
        let mut s = u32_to_string(n / 10);
        s.append(digit_str(n % 10));
        proof {
            assert(s@ =~= dec_rep(n as int));
        }
        s
    }
}

/// Renders a signed number in decimal, with a '-' for negative values only.
pub fn i32_to_string(n: i32) -> (s: String)
    requires
        n > i32::MIN,
    ensures
        s@ == int_rep(n as int),
{
    if n >= 0 {
        u32_to_string(n as u32)
    } else {
        proof {
            reveal_strlit("-");
        }
        let mut s = String::from_str("-");
        let mag = u32_to_string((-n) as u32);
        s.append(mag.as_str());
        proof {
            assert(s@ =~= int_rep(n as int));
        }
        s
    }
}

/// Renders a modifier or bonus with its sign, e.g. "+3", "-1", "+0".
pub fn format_bonus(n: i32) -> (s: String)
    requires
        n > i32::MIN,
    ensures
        s@ == bonus_rep(n as int),
{
    proof {
        reveal_strlit("+");
        reveal_strlit("-");
    }
    if n >= 0 {
        let mut s = String::from_str("+");
        let mag = u32_to_string(n as u32);
        s.append(mag.as_str());
        proof {
            assert(s@ =~= bonus_rep(n as int));
        }
        s
    } else {
        let mut s = String::from_str("-");
        let mag = u32_to_string((-n) as u32);
        s.append(mag.as_str());
        proof {
            assert(s@ =~= bonus_rep(n as int));
        }
        s
    }
}

/// The abstract value of a list of (key, value) string pairs.
pub open spec fn pairs_view(v: Seq<(String, String)>) -> Seq<(Seq<char>, Seq<char>)> {
    v.map_values(|p: (String, String)| (p.0@, p.1@))
}

/// The abstract value of a list of (key, flag) pairs.
pub open spec fn bool_pairs_view(v: Seq<(String, bool)>) -> Seq<(Seq<char>, bool)> {
    v.map_values(|p: (String, bool)| (p.0@, p.1))
}

// ---------------------------------------------------------------------------
// String comparison
// ---------------------------------------------------------------------------

/// Character-for-character string equality.
pub fn str_eq(a: &str, b: &str) -> (r: bool)
    ensures
        r == (a@ == b@),
{
    let alen = a.unicode_len();
    let blen = b.unicode_len();
    if alen != blen {
        return false;
    }
    let mut i: usize = 0;
    while i < alen
        invariant
            0 <= i <= alen,
            alen == a@.len(),
            alen == b@.len(),
            forall|j: int| 0 <= j < i ==> a@[j] == b@[j],
        decreases alen - i,
    {
        if a.get_char(i) != b.get_char(i) {
            return false;
        }
        i = i + 1;
    }
    proof {
        assert(a@ =~= b@);
    }
    true
}

/// Whether some element of `v` has exactly the characters `s`.
pub open spec fn seq_contains_string(v: Seq<String>, s: Seq<char>) -> bool {
    exists|i: int| 0 <= i < v.len() && #[trigger] v[i]@ == s
}

/// Linear search for a string among a vector of strings.
pub fn vec_contains_str(v: &Vec<String>, s: &str) -> (r: bool)
    ensures
        r == seq_contains_string(v@, s@),
{
    let mut i: usize = 0;
    while i < v.len()
        invariant
            0 <= i <= v@.len(),
            forall|j: int| 0 <= j < i ==> #[trigger] v@[j]@ != s@,
        decreases v@.len() - i,
    {
        if str_eq(v[i].as_str(), s) {
            return true;
        }
        i = i + 1;
    }
    false
}

/// Whether some character of `s` is `c`.
pub open spec fn seq_contains_char(s: Seq<char>, c: char) -> bool {
    exists|i: int| 0 <= i < s.len() && #[trigger] s[i] == c
}

/// Linear search for one character.
pub fn str_contains_char(s: &str, c: char) -> (r: bool)
    ensures
        r == seq_contains_char(s@, c),
{
    let len = s.unicode_len();
    let mut i: usize = 0;
    while i < len
        invariant
            0 <= i <= len,
            len == s@.len(),
            forall|j: int| 0 <= j < i ==> #[trigger] s@[j] != c,
        decreases len - i,
    {
        if s.get_char(i) == c {
            return true;
        }
        i = i + 1;
    }
    false
}

// ---------------------------------------------------------------------------
// ASCII case folding
// ---------------------------------------------------------------------------

/// ASCII lower-casing of one character; anything outside 'A'..'Z' is kept.
pub open spec fn lower_char(c: char) -> char {
    if 'A' <= c && c <= 'Z' {
        ((c as int) + 32) as char
    } else {
        c
    }
}

/// ASCII lower-casing of a character sequence.
pub open spec fn lower_chars(s: Seq<char>) -> Seq<char> {
    s.map_values(|c: char| lower_char(c))
}

/// Lower-cases one character (ASCII letters only).
pub fn to_lower_char(c: char) -> (r: char)
    ensures
        r == lower_char(c),
{
    let u: u32 = c as u32;
    if 65 <= u && u <= 90 {
        let l: u8 = (u + 32) as u8;
        l as char
    } else {
        c
    }
}

/// String equality up to ASCII case.
pub fn eq_ignore_ascii_case(a: &str, b: &str) -> (r: bool)
    ensures
        r == (lower_chars(a@) == lower_chars(b@)),
{
    let alen = a.unicode_len();
    let blen = b.unicode_len();
    if alen != blen {
        assert(lower_chars(a@).len() != lower_chars(b@).len());
        return false;
    }
    let mut i: usize = 0;
    while i < alen
        invariant
            0 <= i <= alen,
            alen == a@.len(),
            alen == b@.len(),
            forall|j: int| 0 <= j < i ==> lower_chars(a@)[j] == lower_chars(b@)[j],
        decreases alen - i,
    {
        let ca = to_lower_char(a.get_char(i));
        let cb = to_lower_char(b.get_char(i));
        if ca != cb {
            assert(lower_chars(a@)[i as int] != lower_chars(b@)[i as int]);
            return false;
        }
        i = i + 1;
    }
    proof {
        assert(lower_chars(a@) =~= lower_chars(b@));
    }
    true
}

// ---------------------------------------------------------------------------
// Substring search
// ---------------------------------------------------------------------------

/// Whether `pat` occurs as a contiguous run of characters inside `s`.
pub open spec fn is_substring_of(pat: Seq<char>, s: Seq<char>) -> bool {
    exists|i: int|
        0 <= i <= s.len() - pat.len() && #[trigger] s.subrange(i, i + pat.len()) == pat
}

/// Whether `s` starts with `pat`.
pub open spec fn starts_with(pat: Seq<char>, s: Seq<char>) -> bool {
    pat.len() <= s.len() && s.subrange(0, pat.len() as int) == pat
}

/// Whether `s` ends with `pat`.
pub open spec fn ends_with(pat: Seq<char>, s: Seq<char>) -> bool {
    pat.len() <= s.len() && s.subrange(s.len() - pat.len(), s.len() as int) == pat
}

/// Suffix test against the ASCII-lower-cased text (`pat` is compared as
/// given, so callers pass it in lower case).
pub fn str_ends_with_lower(s: &str, pat: &str) -> (r: bool)
    ensures
        r == ends_with(pat@, lower_chars(s@)),
{
    let slen = s.unicode_len();
    let plen = pat.unicode_len();
    if plen > slen {
        return false;
    }
    let start = slen - plen;
    let mut j: usize = 0;
    while j < plen
        invariant
            0 <= j <= plen,
            plen <= slen,
            start == slen - plen,
            slen == s@.len(),
            plen == pat@.len(),
            forall|k: int| 0 <= k < j ==> lower_chars(s@)[start + k] == pat@[k],
        decreases plen - j,
    {
        let cs = to_lower_char(s.get_char(start + j));
        let cp = pat.get_char(j);
        if cs != cp {
            assert(lower_chars(s@).subrange(
                lower_chars(s@).len() - pat@.len(),
                lower_chars(s@).len() as int,
            )[j as int] != pat@[j as int]);
            return false;
        }
        j = j + 1;
    }
    proof {
        assert(lower_chars(s@).subrange(
            lower_chars(s@).len() - pat@.len(),
            lower_chars(s@).len() as int,
        ) =~= pat@);
    }
    true
}

fn matches_at(s: &str, pat: &str, i: usize, slen: usize, plen: usize) -> (r: bool)
    requires
        slen == s@.len(),
        plen == pat@.len(),
        i + plen <= slen,
    ensures
        r == (s@.subrange(i as int, i + pat@.len()) == pat@),
{
    let mut j: usize = 0;
    while j < plen
        invariant
            0 <= j <= plen,
            slen == s@.len(),
            plen == pat@.len(),
            i + plen <= slen,
            forall|k: int| 0 <= k < j ==> s@[i + k] == pat@[k],
        decreases plen - j,
    {
        if s.get_char(i + j) != pat.get_char(j) {
            assert(s@.subrange(i as int, i + pat@.len())[j as int] != pat@[j as int]);
            return false;
        }
        j = j + 1;
    }
    proof {
        assert(s@.subrange(i as int, i + pat@.len()) =~= pat@);
    }
    true
}

/// Substring search, as `str::contains` does for literal patterns.
pub fn str_contains(s: &str, pat: &str) -> (r: bool)
    ensures
        r == is_substring_of(pat@, s@),
{
    let slen = s.unicode_len();
    let plen = pat.unicode_len();
    if plen > slen {
        return false;
    }
    if plen == 0 {
        proof {
            assert(s@.subrange(0, 0 + pat@.len() as int) =~= pat@);
        }
        return true;
    }
    let mut i: usize = 0;
    while i <= slen - plen
        invariant
            0 <= i <= slen - plen + 1,
            0 < plen <= slen,
            slen == s@.len(),
            plen == pat@.len(),
            forall|k: int|
                0 <= k < i ==> #[trigger] s@.subrange(k, k + pat@.len()) != pat@,
        decreases slen + 1 - plen - i,
    {
        if matches_at(s, pat, i, slen, plen) {
            return true;
        }
        i = i + 1;
    }
    false
}

/// Prefix test, as `str::starts_with` does for literal patterns.
pub fn str_starts_with(s: &str, pat: &str) -> (r: bool)
    ensures
        r == starts_with(pat@, s@),
{
    let slen = s.unicode_len();
    let plen = pat.unicode_len();
    if plen > slen {
        return false;
    }
    matches_at(s, pat, 0, slen, plen)
}

} // verus!
