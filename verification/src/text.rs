//! Character-sequence utilities: substring search (plain and
//! ASCII-case-insensitive), whitespace trimming, and decimal rendering.
//! These carry exact contracts so that the URL heuristics, the page-title
//! scanner and the identifier builders can state their results precisely.

use vstd::prelude::*;

verus! {

/// ASCII lowercase folding of one character; every other character is kept.
pub open spec fn lower_char(c: char) -> char {
    if c == 'A' { 'a' } else if c == 'B' { 'b' } else if c == 'C' { 'c' }
    else if c == 'D' { 'd' } else if c == 'E' { 'e' } else if c == 'F' { 'f' }
    else if c == 'G' { 'g' } else if c == 'H' { 'h' } else if c == 'I' { 'i' }
    else if c == 'J' { 'j' } else if c == 'K' { 'k' } else if c == 'L' { 'l' }
    else if c == 'M' { 'm' } else if c == 'N' { 'n' } else if c == 'O' { 'o' }
    else if c == 'P' { 'p' } else if c == 'Q' { 'q' } else if c == 'R' { 'r' }
    else if c == 'S' { 's' } else if c == 'T' { 't' } else if c == 'U' { 'u' }
    else if c == 'V' { 'v' } else if c == 'W' { 'w' } else if c == 'X' { 'x' }
    else if c == 'Y' { 'y' } else if c == 'Z' { 'z' } else { c }
}

/// ASCII lowercase folding of a whole sequence.
pub open spec fn lower_seq(s: Seq<char>) -> Seq<char> {
    s.map_values(|c: char| lower_char(c))
}

/// The sequence a search runs over: the text itself, or its folded form
/// for a case-insensitive search.
pub open spec fn norm_seq(s: Seq<char>, ci: bool) -> Seq<char> {
    if ci { lower_seq(s) } else { s }
}

fn lower_char_exec(c: char) -> (r: char)
    ensures
        r == lower_char(c),
{
    if c == 'A' { 'a' } else if c == 'B' { 'b' } else if c == 'C' { 'c' }
    else if c == 'D' { 'd' } else if c == 'E' { 'e' } else if c == 'F' { 'f' }
    else if c == 'G' { 'g' } else if c == 'H' { 'h' } else if c == 'I' { 'i' }
    else if c == 'J' { 'j' } else if c == 'K' { 'k' } else if c == 'L' { 'l' }
    else if c == 'M' { 'm' } else if c == 'N' { 'n' } else if c == 'O' { 'o' }
    else if c == 'P' { 'p' } else if c == 'Q' { 'q' } else if c == 'R' { 'r' }
    else if c == 'S' { 's' } else if c == 'T' { 't' } else if c == 'U' { 'u' }
    else if c == 'V' { 'v' } else if c == 'W' { 'w' } else if c == 'X' { 'x' }
    else if c == 'Y' { 'y' } else if c == 'Z' { 'z' } else { c }
}

/// The pattern `p` occurs in `s` at position `i`.
pub open spec fn occurs_at(s: Seq<char>, p: Seq<char>, i: int) -> bool {
    0 <= i && i + p.len() <= s.len() && s.subrange(i, i + p.len() as int) == p
}

/// Position of the first occurrence of `p` in `s` at or after `from`.
pub open spec fn find_spec(s: Seq<char>, p: Seq<char>, from: int) -> Option<int>
    decreases s.len() - from + 1,
{
    if from < 0 || from + p.len() > s.len() {
        None
    } else if s.subrange(from, from + p.len() as int) == p {
        Some(from)
    } else {
        find_spec(s, p, from + 1)
    }
}

/// A found position is at or after the search start and really is an
/// occurrence.
pub proof fn lemma_find_spec_some(s: Seq<char>, p: Seq<char>, from: int, i: int)
    requires
        find_spec(s, p, from) == Some(i),
    ensures
        from <= i,
        occurs_at(s, p, i),
    decreases s.len() - from + 1,
{
    if !(from < 0 || from + p.len() > s.len())
        && s.subrange(from, from + p.len() as int) != p {
        lemma_find_spec_some(s, p, from + 1, i);
    }
}

/// `p` is a prefix of `s`.
pub open spec fn has_prefix(s: Seq<char>, p: Seq<char>) -> bool {
    occurs_at(s, p, 0)
}

/// `p` occurs somewhere in `s`.
pub open spec fn contains_seq(s: Seq<char>, p: Seq<char>) -> bool {
    find_spec(s, p, 0) is Some
}

fn match_at(s: &str, p: &str, i: usize, ci: bool) -> (r: bool)
    requires
        i + p@.len() <= s@.len(),
    ensures
        r == occurs_at(norm_seq(s@, ci), p@, i as int),
{
    let slen = s.unicode_len();
    let plen = p.unicode_len();
    assert(norm_seq(s@, ci).len() == s@.len());
    let mut k: usize = 0;
    while k < plen
        invariant
            slen == s@.len(),
            plen == p@.len(),
            i + plen <= slen,
            k <= plen,
            norm_seq(s@, ci).len() == s@.len(),
            forall|m: int| 0 <= m < k ==> norm_seq(s@, ci)[i + m] == p@[m],
        decreases plen - k,
    {
        let sc = s.get_char(i + k);
        let nc = if ci { lower_char_exec(sc) } else { sc };
        assert(nc == norm_seq(s@, ci)[i + k as int]);
        if nc != p.get_char(k) {
            assert(!occurs_at(norm_seq(s@, ci), p@, i as int)) by {
                let w = norm_seq(s@, ci).subrange(i as int, i + plen as int);
                assert(w[k as int] == norm_seq(s@, ci)[i + k as int]);
            };
            return false;
        }
        k += 1;
    }
    assert(norm_seq(s@, ci).subrange(i as int, i + plen as int) =~= p@);
    true
}

/// Finds the first occurrence of `p` in `s` at or after `from`; with
/// `ci` the search folds `s` to ASCII lowercase first (the pattern is
/// taken as written).
pub fn find_from(s: &str, p: &str, from: usize, ci: bool) -> (r: Option<usize>)
    ensures
        match r {
            Some(i) => from <= i && find_spec(norm_seq(s@, ci), p@, from as int)
                == Some(i as int),
            None => find_spec(norm_seq(s@, ci), p@, from as int) is None,
        },
{
    let slen = s.unicode_len();
    let plen = p.unicode_len();
    assert(norm_seq(s@, ci).len() == s@.len());
    if plen > slen || from > slen - plen {
        return None;
    }
    if plen == 0 {
        assert(norm_seq(s@, ci).subrange(from as int, from as int) =~= p@);
        return Some(from);
    }
    let mut i: usize = from;
    while i <= slen - plen
        invariant
            slen == s@.len(),
            plen == p@.len(),
            0 < plen <= slen,
            from <= i,
            i <= slen - plen + 1,
            norm_seq(s@, ci).len() == s@.len(),
            find_spec(norm_seq(s@, ci), p@, from as int)
                == find_spec(norm_seq(s@, ci), p@, i as int),
        decreases slen - i,
    {
        if match_at(s, p, i, ci) {
            return Some(i);
        }
        i += 1;
    }
    None
}

/// Whether `s` starts with `p`.
pub fn starts_with_str(s: &str, p: &str) -> (r: bool)
    ensures
        r == has_prefix(s@, p@),
{
    let slen = s.unicode_len();
    let plen = p.unicode_len();
    if plen > slen {
        false
    } else {
        match_at(s, p, 0, false)
    }
}

/// Whether the two string slices hold the same characters.
pub fn str_eq_str(a: &str, b: &str) -> (r: bool)
    ensures
        r == (a@ == b@),
{
    let alen = a.unicode_len();
    let blen = b.unicode_len();
    if alen != blen {
        false
    } else {
        let r = match_at(a, b, 0, false);
        proof {
            assert(a@.subrange(0, alen as int) =~= a@);
        }
        r
    }
}

/// Whether `p` occurs anywhere in `s`.
pub fn contains_str(s: &str, p: &str) -> (r: bool)
    ensures
        r == contains_seq(s@, p@),
{
    find_from(s, p, 0, false).is_some()
}

/// The characters Rust regards as whitespace when trimming.
pub open spec fn is_space_char(c: char) -> bool {
    c == ' ' || c == '\t' || c == '\n' || c == '\r' || c == '\u{B}' || c == '\u{C}'
        || c == '\u{85}' || c == '\u{A0}' || c == '\u{1680}' || c == '\u{2000}'
        || c == '\u{2001}' || c == '\u{2002}' || c == '\u{2003}' || c == '\u{2004}'
        || c == '\u{2005}' || c == '\u{2006}' || c == '\u{2007}' || c == '\u{2008}'
        || c == '\u{2009}' || c == '\u{200A}' || c == '\u{2028}' || c == '\u{2029}'
        || c == '\u{202F}' || c == '\u{205F}' || c == '\u{3000}'
}

fn is_space(c: char) -> (r: bool)
    ensures
        r == is_space_char(c),
{
    c == ' ' || c == '\t' || c == '\n' || c == '\r' || c == '\u{B}' || c == '\u{C}'
        || c == '\u{85}' || c == '\u{A0}' || c == '\u{1680}' || c == '\u{2000}'
        || c == '\u{2001}' || c == '\u{2002}' || c == '\u{2003}' || c == '\u{2004}'
        || c == '\u{2005}' || c == '\u{2006}' || c == '\u{2007}' || c == '\u{2008}'
        || c == '\u{2009}' || c == '\u{200A}' || c == '\u{2028}' || c == '\u{2029}'
        || c == '\u{202F}' || c == '\u{205F}' || c == '\u{3000}'
}

/// `s` with leading whitespace removed.
pub open spec fn trim_left(s: Seq<char>) -> Seq<char>
    decreases s.len(),
{
    if s.len() > 0 && is_space_char(s[0]) {
        trim_left(s.subrange(1, s.len() as int))
    } else {
        s
    }
}

/// `s` with trailing whitespace removed.
pub open spec fn trim_right(s: Seq<char>) -> Seq<char>
    decreases s.len(),
{
    if s.len() > 0 && is_space_char(s[s.len() - 1]) {
        trim_right(s.subrange(0, s.len() - 1))
    } else {
        s
    }
}

/// `s` with whitespace removed from both ends.
pub open spec fn trim_spec(s: Seq<char>) -> Seq<char> {
    trim_right(trim_left(s))
}

/// Trims whitespace from both ends of `s`.
pub fn trim_str(s: &str) -> (r: String)
    ensures
        r@ == trim_spec(s@),
{
    let slen = s.unicode_len();
    assert(s@.subrange(0, slen as int) =~= s@);
    let mut a: usize = 0;
    while a < slen && is_space(s.get_char(a))
        invariant
            slen == s@.len(),
            a <= slen,
            trim_left(s@) == trim_left(s@.subrange(a as int, slen as int)),
        decreases slen - a,
    {
        assert(s@.subrange(a as int, slen as int)[0] == s@[a as int]);
        assert(s@.subrange(a as int, slen as int).subrange(1, slen - a)
            =~= s@.subrange(a + 1, slen as int));
        a += 1;
    }
    assert(trim_left(s@) == s@.subrange(a as int, slen as int)) by {
        if a < slen {
            assert(s@.subrange(a as int, slen as int)[0] == s@[a as int]);
        }
    };
    let mut b: usize = slen;
    while b > a && is_space(s.get_char(b - 1))
        invariant
            slen == s@.len(),
            a <= b <= slen,
            trim_right(s@.subrange(a as int, slen as int))
                == trim_right(s@.subrange(a as int, b as int)),
        decreases b,
    {
        assert(s@.subrange(a as int, b as int)[(b - a - 1) as int] == s@[b - 1]);
        assert(s@.subrange(a as int, b as int).subrange(0, b - a - 1)
            =~= s@.subrange(a as int, b - 1));
        b -= 1;
    }
    assert(trim_right(s@.subrange(a as int, b as int)) == s@.subrange(a as int, b as int)) by {
        if b > a {
            assert(s@.subrange(a as int, b as int)[(b - a - 1) as int] == s@[b - 1]);
        }
    };
    let piece = s.substring_char(a, b);
    piece.to_owned()
}

/// The character for a single decimal digit.
pub open spec fn digit_char(d: int) -> char {
    if d == 0 { '0' } else if d == 1 { '1' } else if d == 2 { '2' }
    else if d == 3 { '3' } else if d == 4 { '4' } else if d == 5 { '5' }
    else if d == 6 { '6' } else if d == 7 { '7' } else if d == 8 { '8' }
    else { '9' }
}

/// Decimal rendering of a natural number, most significant digit first.
pub open spec fn dec_str(n: int) -> Seq<char>
    decreases n,
{
    if n < 10 {
        seq![digit_char(n)]
    } else {
        dec_str(n / 10).push(digit_char(n % 10))
    }
}

fn digit_label(d: u64) -> (r: &'static str)
    requires
        d < 10,
    ensures
        r@ == seq![digit_char(d as int)],
{
    proof {
        reveal_strlit("0");
        reveal_strlit("1");
        reveal_strlit("2");
        reveal_strlit("3");
        reveal_strlit("4");
        reveal_strlit("5");
        reveal_strlit("6");
        reveal_strlit("7");
        reveal_strlit("8");
        reveal_strlit("9");
    }
    if d == 0 { "0" } else if d == 1 { "1" } else if d == 2 { "2" }
    else if d == 3 { "3" } else if d == 4 { "4" } else if d == 5 { "5" }
    else if d == 6 { "6" } else if d == 7 { "7" } else if d == 8 { "8" }
    else { "9" }
}

/// Appends the decimal rendering of `n` to `out`.
pub fn append_decimal(out: &mut String, n: u64)
    ensures
        final(out)@ == old(out)@ + dec_str(n as int),
    decreases n,
{
    if n < 10 {
        out.append(digit_label(n));
    } else {
        append_decimal(out, n / 10);
        let ghost mid = out@;
        out.append(digit_label(n % 10));
        proof {
            assert(out@ =~= old(out)@ + dec_str(n as int)) by {
                assert(out@ == mid + seq![digit_char(n as int % 10)]);
                assert(dec_str(n as int)
                    =~= dec_str(n as int / 10) + seq![digit_char(n as int % 10)]);
                assert(old(out)@ + (dec_str(n as int / 10) + seq![digit_char(n as int % 10)])
                    =~= (old(out)@ + dec_str(n as int / 10)) + seq![digit_char(n as int % 10)]);
            };
        }
    }
}

/// The words the shell prints for a boolean.
pub fn bool_label(b: bool) -> (r: &'static str)
    ensures
        b ==> r@ == "true"@,
        !b ==> r@ == "false"@,
{
    if b { "true" } else { "false" }
}

} // verus!
