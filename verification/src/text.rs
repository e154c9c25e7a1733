//! Lenient comparison of window titles and layer descriptors.
//!
//! Window managers and applications decorate titles freely, so a descriptor
//! is taken to name a window when the two strings are equal, when one occurs
//! inside the other, or when they agree once trailing separators are removed.
//! All specifications are stated over sequences of characters, the view of
//! `str` and `String`.

use vstd::prelude::*;

verus! {

/// `needle` occurs in `hay` as a contiguous run that starts at position `at`.
pub open spec fn occurs_at(hay: Seq<char>, needle: Seq<char>, at: int) -> bool {
    &&& 0 <= at
    &&& at + needle.len() <= hay.len()
    &&& hay.subrange(at, at + needle.len()) == needle
}

/// `needle` occurs somewhere in `hay`.
pub open spec fn is_substring(hay: Seq<char>, needle: Seq<char>) -> bool {
    exists|at: int| occurs_at(hay, needle, at)
}

/// `s` ends with `suffix`.
pub open spec fn has_suffix(s: Seq<char>, suffix: Seq<char>) -> bool {
    &&& suffix.len() <= s.len()
    &&& s.subrange(s.len() - suffix.len(), s.len() as int) == suffix
}

/// `s` with every trailing repetition of `pat` removed. The pattern is meant
/// to be non-empty; with an empty one nothing is removed.
pub open spec fn trim_end_matches(s: Seq<char>, pat: Seq<char>) -> Seq<char>
    decreases s.len(),
{
    if pat.len() > 0 && has_suffix(s, pat) {
        trim_end_matches(s.take(s.len() - pat.len()), pat)
    } else {
        s
    }
}

/// The separator `" - "`.
pub open spec fn dash_separator() -> Seq<char> {
    seq![' ', '-', ' ']
}

/// The separator `" | "`.
pub open spec fn bar_separator() -> Seq<char> {
    seq![' ', '|', ' ']
}

/// A title without its trailing separators: first every trailing `" - "` is
/// removed, then every trailing `" | "`.
pub open spec fn clean_title(s: Seq<char>) -> Seq<char> {
    trim_end_matches(trim_end_matches(s, dash_separator()), bar_separator())
}

/// The lenient match: never with an empty string; otherwise on equality, on
/// containment in either direction, or on equality of the cleaned titles.
pub open spec fn str_matched(a: Seq<char>, b: Seq<char>) -> bool {
    &&& a.len() > 0
    &&& b.len() > 0
    &&& {
        ||| a == b
        ||| is_substring(a, b)
        ||| is_substring(b, a)
        ||| clean_title(a) == clean_title(b)
    }
}

/// The match does not depend on the order of its arguments.
pub proof fn str_matched_is_symmetric(a: Seq<char>, b: Seq<char>)
    ensures
        str_matched(a, b) == str_matched(b, a),
{
}

/// Every non-empty string matches itself.
pub proof fn str_matched_is_reflexive(x: Seq<char>)
    requires
        x.len() > 0,
    ensures
        str_matched(x, x),
{
}

/// The empty string matches nothing, on either side.
pub proof fn str_matched_rejects_empty(x: Seq<char>)
    ensures
        !str_matched(Seq::<char>::empty(), x),
        !str_matched(x, Seq::<char>::empty()),
{
}

/// Copies the characters of a string slice into a vector.
pub fn chars_of(s: &str) -> (out: Vec<char>)
    ensures
        out@ == s@,
{
    let mut out: Vec<char> = Vec::new();
    for c in it: s.chars()
        invariant
            out@ == it.seq().take(it.index() as int),
            it.seq() == s@,
    {
        out.push(c);
    }
    out
}

/// Tests whether the first `alen` characters of `a` and the first `blen`
/// characters of `b` are the same sequence.
pub fn same_prefix(a: &Vec<char>, alen: usize, b: &Vec<char>, blen: usize) -> (same: bool)
    requires
        alen <= a.len(),
        blen <= b.len(),
    ensures
        same == (a@.take(alen as int) == b@.take(blen as int)),
{
    if alen != blen {
        assert(a@.take(alen as int).len() != b@.take(blen as int).len());
        return false;
    }
    let mut i: usize = 0;
    while i < alen
        invariant
            i <= alen,
            alen == blen,
            alen <= a.len(),
            blen <= b.len(),
            forall|k: int| 0 <= k < i ==> a@[k] == b@[k],
        decreases alen - i,
    {
        if a[i] != b[i] {
            assert(a@.take(alen as int)[i as int] != b@.take(blen as int)[i as int]);
            return false;
        }
        i += 1;
    }
    assert(a@.take(alen as int) =~= b@.take(blen as int));
    true
}

/// Tests whether `needle` occurs in `hay` at position `at`.
pub fn starts_at(hay: &Vec<char>, needle: &Vec<char>, at: usize) -> (found: bool)
    requires
        at + needle.len() <= hay.len(),
    ensures
        found == occurs_at(hay@, needle@, at as int),
{
    let n = needle.len();
    let mut i: usize = 0;
    while i < n
        invariant
            i <= n,
            n == needle.len(),
            at + n <= hay.len(),
            forall|k: int| 0 <= k < i ==> hay@[at + k] == needle@[k],
        decreases n - i,
    {
        if hay[at + i] != needle[i] {
            assert(hay@.subrange(at as int, at + n)[i as int] != needle@[i as int]);
            return false;
        }
        i += 1;
    }
    assert(hay@.subrange(at as int, at + n) =~= needle@);
    true
}

/// Tests whether `needle` occurs somewhere in `hay`.
pub fn contains(hay: &Vec<char>, needle: &Vec<char>) -> (found: bool)
    ensures
        found == is_substring(hay@, needle@),
{
    if needle.len() > hay.len() {
        return false;
    }
    if needle.len() == 0 {
        assert(hay@.subrange(0, 0) =~= needle@);
        assert(occurs_at(hay@, needle@, 0));
        return true;
    }
    let last = hay.len() - needle.len();
    let mut at: usize = 0;
    while at <= last
        invariant
            at <= last + 1,
            last + needle.len() == hay.len(),
            needle.len() > 0,
            forall|k: int| 0 <= k < at ==> !occurs_at(hay@, needle@, k),
        decreases last + 1 - at,
    {
        if starts_at(hay, needle, at) {
            return true;
        }
        at += 1;
    }
    false
}

/// Length of the first `len` characters of `s` once every trailing
/// repetition of `pat` is removed from them.
pub fn trimmed_len(s: &Vec<char>, len: usize, pat: &Vec<char>) -> (kept: usize)
    requires
        len <= s.len(),
        pat.len() > 0,
    ensures
        kept <= len,
        s@.take(kept as int) == trim_end_matches(s@.take(len as int), pat@),
{
    let p = pat.len();
    let mut kept = len;
    while kept >= p && starts_at(s, pat, kept - p)
        invariant
            kept <= len <= s.len(),
            p == pat.len(),
            p > 0,
            trim_end_matches(s@.take(kept as int), pat@) == trim_end_matches(
                s@.take(len as int),
                pat@,
            ),
        decreases kept,
    {
        proof {
            let cur = s@.take(kept as int);
            assert(cur.subrange(cur.len() - p, cur.len() as int) =~= s@.subrange(
                kept - p,
                kept as int,
            ));
            assert(cur.take(cur.len() - p) =~= s@.take(kept - p));
        }
        kept = kept - p;
    }
    proof {
        let cur = s@.take(kept as int);
        if kept >= p {
            assert(cur.subrange(cur.len() - p, cur.len() as int) =~= s@.subrange(
                kept - p,
                kept as int,
            ));
        }
    }
    kept
}

/// Length of the cleaned title of `s`, which is a prefix of `s`.
pub fn cleaned_len(s: &Vec<char>) -> (kept: usize)
    ensures
        kept <= s.len(),
        s@.take(kept as int) == clean_title(s@),
{
    let dash: Vec<char> = vec![' ', '-', ' '];
    let bar: Vec<char> = vec![' ', '|', ' '];
    assert(dash@ =~= dash_separator());
    assert(bar@ =~= bar_separator());
    assert(s@.take(s.len() as int) =~= s@);
    let without_dash = trimmed_len(s, s.len(), &dash);
    trimmed_len(s, without_dash, &bar)
}

/// Decides the lenient match of two character sequences.
pub fn chars_matched(a: &Vec<char>, b: &Vec<char>) -> (matched: bool)
    ensures
        matched == str_matched(a@, b@),
{
    if a.len() == 0 || b.len() == 0 {
        return false;
    }
    assert(a@.take(a.len() as int) =~= a@);
    assert(b@.take(b.len() as int) =~= b@);
    if same_prefix(a, a.len(), b, b.len()) {
        return true;
    }
    if contains(a, b) || contains(b, a) {
        return true;
    }
    let clean_a = cleaned_len(a);
    let clean_b = cleaned_len(b);
    same_prefix(a, clean_a, b, clean_b)
}

} // verus!
