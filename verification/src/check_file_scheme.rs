//! Validation of a file-name scheme: scanning its brace-delimited
//! placeholders and reporting those that are not recognized.
//!
//! A placeholder is an opening brace, one or more characters none of which
//! is an opening brace, and a closing brace; the scan is greedy, takes the
//! leftmost placeholder first, and never overlaps two placeholders.

use vstd::prelude::*;

use crate::text::str_eq;

verus! {

/// The position of the first opening brace at or after `i`, or the text
/// length when there is none.
pub open spec fn next_open_brace(text: Seq<char>, i: int) -> int
    decreases text.len() + 1 - i when 0 <= i
{
    if i >= text.len() {
        text.len() as int
    } else if text[i] == '{' {
        i
    } else {
        next_open_brace(text, i + 1)
    }
}

/// The position of the last closing brace in `lo..=j`, if any.
pub open spec fn last_close_brace(text: Seq<char>, lo: int, j: int) -> Option<int>
    decreases j + 1 - lo when lo >= 0
{
    if j < lo {
        None
    } else if text[j] == '}' {
        Some(j)
    } else {
        last_close_brace(text, lo, j - 1)
    }
}

/// Where the placeholder opening at `s` closes: greedily, at the last
/// closing brace that stands after at least one further character and
/// before the next opening brace.
pub open spec fn placeholder_close(text: Seq<char>, s: int) -> Option<int> {
    last_close_brace(text, s + 2, next_open_brace(text, s + 1) - 1)
}

/// The first opening brace at or after `i` lies between `i` and the text's
/// end, carries an opening brace when inside the text, and nothing before
/// it does.
pub proof fn lemma_next_open_brace(text: Seq<char>, i: int)
    requires
        0 <= i <= text.len(),
    ensures
        i <= next_open_brace(text, i),
        next_open_brace(text, i) <= text.len(),
        next_open_brace(text, i) < text.len() ==> text[next_open_brace(text, i)] == '{',
        forall|j: int| i <= j < next_open_brace(text, i) ==> text[j] != '{',
    decreases text.len() + 1 - i,
{
    if i < text.len() && text[i] != '{' {
        lemma_next_open_brace(text, i + 1);
    }
}

/// A found closing brace lies in the scanned range, carries a closing
/// brace, and nothing after it in the range does.
pub proof fn lemma_last_close_brace(text: Seq<char>, lo: int, j: int)
    requires
        0 <= lo,
    ensures
        last_close_brace(text, lo, j) matches Some(e) ==> lo <= e <= j && text[e] == '}',
        last_close_brace(text, lo, j) is None ==> forall|k: int| lo <= k <= j ==> text[k] != '}',
    decreases j + 1 - lo,
{
    if j >= lo && text[j] != '}' {
        lemma_last_close_brace(text, lo, j - 1);
    }
}

/// A recognized placeholder of the file-name template.
pub open spec fn is_valid_placeholder(p: Seq<char>) -> bool {
    ||| p == "{UPVOTES}"@
    ||| p == "{AUTHOR}"@
    ||| p == "{POSTID}"@
    ||| p == "{DATE}"@
}

/// The unrecognized placeholders found scanning from position `p`, in scan
/// order: at each opening brace that closes, the whole brace-delimited span
/// is taken and the scan resumes after it; an opening brace that does not
/// close is stepped over.
pub open spec fn invalid_placeholders_from(text: Seq<char>, p: int) -> Seq<Seq<char>>
    decreases text.len() - p when 0 <= p <= text.len() via invalid_placeholders_from_decreases
{
    if p >= text.len() {
        Seq::empty()
    } else {
        let s = next_open_brace(text, p);
        if s >= text.len() {
            Seq::empty()
        } else {
            match placeholder_close(text, s) {
                Some(e) => {
                    let span = text.subrange(s, e + 1);
                    if is_valid_placeholder(span) {
                        invalid_placeholders_from(text, e + 1)
                    } else {
                        seq![span] + invalid_placeholders_from(text, e + 1)
                    }
                },
                None => invalid_placeholders_from(text, s + 1),
            }
        }
    }
}

#[via_fn]
proof fn invalid_placeholders_from_decreases(text: Seq<char>, p: int) {
    if 0 <= p < text.len() {
        lemma_next_open_brace(text, p);
        let s = next_open_brace(text, p);
        if s < text.len() {
            lemma_next_open_brace(text, s + 1);
            lemma_last_close_brace(text, s + 2, next_open_brace(text, s + 1) - 1);
        }
    }
}

/// The unrecognized placeholders of a file-name scheme.
pub open spec fn spec_invalid_placeholders(text: Seq<char>) -> Seq<Seq<char>> {
    invalid_placeholders_from(text, 0)
}

/// The position of the first opening brace at or after `i`, or the text
/// length.
fn next_open_brace_exec(text: &str, i: usize) -> (r: usize)
    requires
        i <= text@.len(),
    ensures
        r == next_open_brace(text@, i as int),
        i <= r <= text@.len(),
{
    let len = text.unicode_len();
    let mut j: usize = i;
    while j < len
        invariant
            len == text@.len(),
            i <= j <= len,
            next_open_brace(text@, i as int) == next_open_brace(text@, j as int),
        decreases len - j,
    {
        if text.get_char(j) == '{' {
            return j;
        }
        j = j + 1;
    }
    len
}

/// The position of the last closing brace in `lo..=hi`, if any; `hi` is an
/// exclusive bound given as `hi`, scanned downward from `hi - 1`.
fn last_close_brace_exec(text: &str, lo: usize, hi: usize) -> (r: Option<usize>)
    requires
        hi <= text@.len(),
    ensures
        match r {
            Some(e) => last_close_brace(text@, lo as int, hi - 1) == Some(e as int),
            None => last_close_brace(text@, lo as int, hi - 1) is None,
        },
{
    if hi <= lo {
        return None;
    }
    let mut j: usize = hi - 1;
    loop
        invariant
            lo <= j < hi <= text@.len(),
            last_close_brace(text@, lo as int, hi - 1) == last_close_brace(
                text@,
                lo as int,
                j as int,
            ),
        decreases j,
    {
        if text.get_char(j) == '}' {
            return Some(j);
        }
        if j == lo {
            return None;
        }
        j = j - 1;
    }
}

/// Whether a brace-delimited span is one of the recognized placeholders.
fn is_valid_placeholder_exec(p: &str) -> (r: bool)
    ensures
        r == is_valid_placeholder(p@),
{
    str_eq(p, "{UPVOTES}") || str_eq(p, "{AUTHOR}") || str_eq(p, "{POSTID}") || str_eq(p, "{DATE}")
}

/// Scans a file-name scheme and returns its unrecognized placeholders, in
/// scan order. An empty result means the scheme is well-formed.
pub fn find_invalid_placeholders(scheme: &str) -> (r: Vec<String>)
    ensures
        r.deep_view() == spec_invalid_placeholders(scheme@),
{
    let text = scheme;
    let len = text.unicode_len();
    let mut out: Vec<String> = Vec::new();
    let mut p: usize = 0;
    assert(out.deep_view() =~= Seq::<Seq<char>>::empty());
    while p < len
        invariant
            len == text@.len(),
            0 <= p <= len,
            out.deep_view() + invalid_placeholders_from(text@, p as int)
                =~= spec_invalid_placeholders(text@),
        decreases len - p,
    {
        let s = next_open_brace_exec(text, p);
        if s >= len {
            proof {
                assert(invalid_placeholders_from(text@, p as int) =~= Seq::<Seq<char>>::empty());
            }
            p = len;
        } else {
            proof {
                lemma_next_open_brace(text@, s + 1);
            }
            let bound = next_open_brace_exec(text, s + 1);
            let close: Option<usize> = if bound - (s + 1) >= 2 {
                last_close_brace_exec(text, s + 2, bound)
            } else {
                None
            };
            match close {
                Some(e) => {
                    proof {
                        lemma_last_close_brace(text@, s + 2, bound - 1);
                    }
                    let span = text.substring_char(s, e + 1);
                    let owned = span.to_owned();
                    if !is_valid_placeholder_exec(span) {
                        out.push(owned);
                    }
                    p = e + 1;
                },
                None => {
                    p = s + 1;
                },
            }
            proof {
                assert(out.deep_view() + invalid_placeholders_from(text@, p as int)
                    =~= spec_invalid_placeholders(text@));
            }
        }
    }
    proof {
        assert(out.deep_view() =~= spec_invalid_placeholders(text@));
    }
    out
}

} // verus!
