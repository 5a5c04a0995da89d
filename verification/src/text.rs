//! Verified text utilities: substring search, splitting around the first or
//! last occurrence of a pattern, and decimal rendering of integers.

use vstd::prelude::*;

verus! {

/// The pattern `pat` occurs in `hay` starting at position `i`.
pub open spec fn matches_at(hay: Seq<char>, pat: Seq<char>, i: int) -> bool {
    0 <= i && i + pat.len() <= hay.len() && hay.subrange(i, i + pat.len()) == pat
}

/// The pattern `pat` occurs somewhere in `hay`.
pub open spec fn contains_seq(hay: Seq<char>, pat: Seq<char>) -> bool {
    exists|i: int| matches_at(hay, pat, i)
}

/// The largest position `<= i` at which `pat` occurs in `hay`, if any.
pub open spec fn last_match_from(hay: Seq<char>, pat: Seq<char>, i: int) -> Option<int>
    decreases i + 1 when i >= -1
{
    if i < 0 {
        None
    } else if matches_at(hay, pat, i) {
        Some(i)
    } else {
        last_match_from(hay, pat, i - 1)
    }
}

/// The position of the last occurrence of `pat` in `hay`, if any.
pub open spec fn last_match(hay: Seq<char>, pat: Seq<char>) -> Option<int> {
    if pat.len() > hay.len() {
        None
    } else {
        last_match_from(hay, pat, hay.len() - pat.len())
    }
}

/// The smallest position `>= i` at which `pat` occurs in `hay`, if any.
pub open spec fn first_match_from(hay: Seq<char>, pat: Seq<char>, i: int) -> Option<int>
    decreases hay.len() + 1 - i when 0 <= i
{
    if i + pat.len() > hay.len() {
        None
    } else if matches_at(hay, pat, i) {
        Some(i)
    } else {
        first_match_from(hay, pat, i + 1)
    }
}

/// The position of the first occurrence of `pat` in `hay`, if any.
pub open spec fn first_match(hay: Seq<char>, pat: Seq<char>) -> Option<int> {
    first_match_from(hay, pat, 0)
}

/// What remains of `hay` after the last occurrence of `pat`; all of `hay`
/// when `pat` does not occur.
pub open spec fn after_last(hay: Seq<char>, pat: Seq<char>) -> Seq<char> {
    match last_match(hay, pat) {
        Some(i) => hay.subrange(i + pat.len(), hay.len() as int),
        None => hay,
    }
}

/// What precedes the first occurrence of `pat` in `hay`; all of `hay` when
/// `pat` does not occur.
pub open spec fn before_first(hay: Seq<char>, pat: Seq<char>) -> Seq<char> {
    match first_match(hay, pat) {
        Some(i) => hay.subrange(0, i),
        None => hay,
    }
}

/// Whether `pat` occurs in `hay` starting at `i`, checked character by
/// character.
fn matches_at_exec(hay: &str, pat: &str, i: usize) -> (r: bool)
    requires
        i + pat@.len() <= hay@.len(),
    ensures
        r == matches_at(hay@, pat@, i as int),
{
    let hlen = hay.unicode_len();
    let plen = pat.unicode_len();
    let mut j: usize = 0;
    while j < plen
        invariant
            hlen == hay@.len(),
            plen == pat@.len(),
            i + plen <= hlen,
            0 <= j <= plen,
            forall|k: int| 0 <= k < j ==> hay@[i + k] == pat@[k],
        decreases plen - j,
    {
        if hay.get_char(i + j) != pat.get_char(j) {
            assert(hay@.subrange(i as int, i + pat@.len())[j as int] != pat@[j as int]);
            return false;
        }
        j = j + 1;
    }
    assert(hay@.subrange(i as int, i + pat@.len()) =~= pat@);
    true
}

/// Whether `pat` occurs anywhere in `hay`.
pub fn contains_sub(hay: &str, pat: &str) -> (r: bool)
    ensures
        r == contains_seq(hay@, pat@),
{
    let hlen = hay.unicode_len();
    let plen = pat.unicode_len();
    if plen == 0 {
        assert(hay@.subrange(0, 0) =~= pat@);
        assert(matches_at(hay@, pat@, 0));
        return true;
    }
    if plen > hlen {
        assert(forall|i: int| !matches_at(hay@, pat@, i));
        return false;
    }
    let mut i: usize = 0;
    while i <= hlen - plen
        invariant
            hlen == hay@.len(),
            plen == pat@.len(),
            0 < plen <= hlen,
            0 <= i <= hlen - plen + 1,
            forall|k: int| 0 <= k < i ==> !matches_at(hay@, pat@, k),
        decreases hlen - plen + 1 - i,
    {
        if matches_at_exec(hay, pat, i) {
            assert(matches_at(hay@, pat@, i as int));
            return true;
        }
        i = i + 1;
    }
    assert(forall|k: int| !matches_at(hay@, pat@, k));
    false
}

/// Position of the last occurrence of `pat` in `hay`, if any.
pub fn find_last(hay: &str, pat: &str) -> (r: Option<usize>)
    ensures
        match r {
            Some(i) => last_match(hay@, pat@) == Some(i as int) && matches_at(
                hay@,
                pat@,
                i as int,
            ),
            None => last_match(hay@, pat@) is None,
        },
{
    let hlen = hay.unicode_len();
    let plen = pat.unicode_len();
    if plen > hlen {
        return None;
    }
    let mut i: usize = hlen - plen;
    loop
        invariant
            hlen == hay@.len(),
            plen == pat@.len(),
            plen <= hlen,
            0 <= i <= hlen - plen,
            last_match(hay@, pat@) == last_match_from(hay@, pat@, i as int),
        decreases i,
    {
        if matches_at_exec(hay, pat, i) {
            return Some(i);
        }
        if i == 0 {
            assert(last_match_from(hay@, pat@, -1) is None);
            return None;
        }
        i = i - 1;
    }
}

/// Position of the first occurrence of `pat` in `hay`, if any.
pub fn find_first(hay: &str, pat: &str) -> (r: Option<usize>)
    ensures
        match r {
            Some(i) => first_match(hay@, pat@) == Some(i as int) && matches_at(
                hay@,
                pat@,
                i as int,
            ),
            None => first_match(hay@, pat@) is None,
        },
{
    let hlen = hay.unicode_len();
    let plen = pat.unicode_len();
    if plen == 0 {
        assert(hay@.subrange(0, 0) =~= pat@);
        return Some(0);
    }
    if plen > hlen {
        return None;
    }
    let mut i: usize = 0;
    while i <= hlen - plen
        invariant
            hlen == hay@.len(),
            plen == pat@.len(),
            0 < plen <= hlen,
            0 <= i <= hlen - plen + 1,
            first_match(hay@, pat@) == first_match_from(hay@, pat@, i as int),
        decreases hlen - plen + 1 - i,
    {
        if matches_at_exec(hay, pat, i) {
            return Some(i);
        }
        i = i + 1;
    }
    None
}

/// What remains of `s` after the last occurrence of `pat`; all of `s` when
/// `pat` does not occur.
pub fn suffix_after_last(s: &str, pat: &str) -> (r: String)
    ensures
        r@ == after_last(s@, pat@),
{
    let hlen = s.unicode_len();
    match find_last(s, pat) {
        Some(i) => {
            let from = i + pat.unicode_len();
            let sub = s.substring_char(from, hlen);
            sub.to_owned()
        },
        None => s.to_owned(),
    }
}

/// What precedes the first occurrence of `pat` in `s`; all of `s` when `pat`
/// does not occur.
pub fn prefix_before_first(s: &str, pat: &str) -> (r: String)
    ensures
        r@ == before_first(s@, pat@),
{
    match find_first(s, pat) {
        Some(i) => {
            let sub = s.substring_char(0, i);
            sub.to_owned()
        },
        None => s.to_owned(),
    }
}

/// Whether two string slices hold the same characters.
pub fn str_eq(a: &str, b: &str) -> (r: bool)
    ensures
        r == (a@ == b@),
{
    let alen = a.unicode_len();
    let blen = b.unicode_len();
    if alen != blen {
        return false;
    }
    proof {
        assert(a@.subrange(0, a@.len() as int) =~= a@);
    }
    matches_at_exec(a, b, 0)
}

/// The character for a single decimal digit.
pub open spec fn digit_char(d: int) -> char {
    if d == 0 { '0' }
    else if d == 1 { '1' }
    else if d == 2 { '2' }
    else if d == 3 { '3' }
    else if d == 4 { '4' }
    else if d == 5 { '5' }
    else if d == 6 { '6' }
    else if d == 7 { '7' }
    else if d == 8 { '8' }
    else { '9' }
}

/// Decimal rendering of a non-negative integer, most significant digit
/// first.
pub open spec fn u64_string(n: int) -> Seq<char>
    decreases n when n >= 0
{
    if n < 10 {
        seq![digit_char(n)]
    } else {
        u64_string(n / 10).push(digit_char(n % 10))
    }
}

/// Decimal rendering of a signed integer: a leading minus sign for negative
/// values, then the digits of the magnitude.
pub open spec fn i64_string(n: int) -> Seq<char> {
    if n < 0 {
        seq!['-'] + u64_string(-n)
    } else {
        u64_string(n)
    }
}

/// A one-character string for a single decimal digit.
fn digit_str(d: u64) -> (r: &'static str)
    requires
        d < 10,
    ensures
        r@ =~= seq![digit_char(d as int)],
{
    proof {
        reveal_strlit("0");
        reveal_strlit("1");
        reveal_strlit("2");
        reveal_strlit("3");
        reveal_strlit("4");
        reveal_strlit("5");
        reveal_strlit("6");
        reveal_strlit("7");
        reveal_strlit("8");
        reveal_strlit("9");
    }
    if d == 0 { "0" }
    else if d == 1 { "1" }
    else if d == 2 { "2" }
    else if d == 3 { "3" }
    else if d == 4 { "4" }
    else if d == 5 { "5" }
    else if d == 6 { "6" }
    else if d == 7 { "7" }
    else if d == 8 { "8" }
    else { "9" }
}

/// Renders `n` in decimal.
pub fn u64_to_string(n: u64) -> (r: String)
    ensures
        r@ == u64_string(n as int),
    decreases n,
{
    if n < 10 {
        digit_str(n).to_owned()
    } else {
        let mut prefix = u64_to_string(n / 10);
        prefix.append(digit_str(n % 10));
        assert(prefix@ =~= u64_string(n as int));
        prefix
    }
}

/// Renders `n` in decimal, with a leading minus sign when negative.
pub fn i64_to_string(n: i64) -> (r: String)
    ensures
        r@ == i64_string(n as int),
{
    if n >= 0 {
        u64_to_string(n as u64)
    } else {
        let magnitude: u64 = ((-(n + 1)) as u64) + 1;
        let mut s = String::new();
        proof {
            reveal_strlit("-");
        }
        s.append("-");
        let digits = u64_to_string(magnitude);
        s.append(digits.as_str());
        assert(s@ =~= i64_string(n as int));
        s
    }
}

/// Renders `n` in decimal.
pub fn usize_to_string(n: usize) -> (r: String)
    ensures
        r@ == u64_string(n as int),
{
    u64_to_string(n as u64)
}

} // verus!
