//! Character-level helpers shared by the parsers: conversion between strings
//! and character vectors, searching, and ASCII case folding.

use vstd::prelude::*;

verus! {

/// Index of the first occurrence of `c` in `s` at or after `from`, or
/// `s.len()` when there is none.
pub open spec fn scan_char(s: Seq<char>, c: char, from: int) -> int
    decreases s.len() - from,
{
    if from < 0 || from >= s.len() {
        s.len() as int
    } else if s[from] == c {
        from
    } else {
        scan_char(s, c, from + 1)
    }
}

/// Index of the first occurrence of `c` in `s`, or `s.len()`.
pub open spec fn find_char(s: Seq<char>, c: char) -> int {
    scan_char(s, c, 0)
}

/// Whether `pat` occurs in `s` starting at index `at`.
pub open spec fn matches_at(s: Seq<char>, pat: Seq<char>, at: int) -> bool {
    &&& 0 <= at
    &&& at + pat.len() <= s.len()
    &&& s.subrange(at, at + pat.len()) == pat
}

/// Index of the first occurrence of `pat` in `s` at or after `from`, or
/// `s.len()` when there is none.
pub open spec fn scan_sub(s: Seq<char>, pat: Seq<char>, from: int) -> int
    decreases s.len() - from,
{
    if from < 0 || from >= s.len() || from + pat.len() > s.len() {
        s.len() as int
    } else if matches_at(s, pat, from) {
        from
    } else {
        scan_sub(s, pat, from + 1)
    }
}

/// Index of the first occurrence of `pat` in `s`, or `s.len()`.
pub open spec fn find_sub(s: Seq<char>, pat: Seq<char>) -> int {
    scan_sub(s, pat, 0)
}

/// Lower-case form of an ASCII letter; every other character is unchanged.
pub open spec fn lower(c: char) -> char {
    if 'A' <= c && c <= 'Z' {
        ((c as u8) + 32) as char
    } else {
        c
    }
}

/// Whether two texts are equal up to the case of ASCII letters.
pub open spec fn eq_ignore_case(a: Seq<char>, b: Seq<char>) -> bool {
    &&& a.len() == b.len()
    &&& forall|i: int| 0 <= i < a.len() ==> lower(#[trigger] a[i]) == lower(b[i])
}

/// The pieces of `s` from index `from` on, cut at every `sep`. A text
/// without `sep` is one piece; a `sep` at the very end leaves an empty last
/// piece.
pub open spec fn split_from(s: Seq<char>, sep: char, from: int) -> Seq<Seq<char>>
    decreases s.len() - from,
{
    if from < 0 || from > s.len() {
        Seq::empty()
    } else if scan_char(s, sep, from) >= s.len() || scan_char(s, sep, from) < from {
        seq![s.subrange(from, s.len() as int)]
    } else {
        seq![s.subrange(from, scan_char(s, sep, from))] + split_from(
            s,
            sep,
            scan_char(s, sep, from) + 1,
        )
    }
}

/// The pieces of `s`, cut at every `sep`.
pub open spec fn split(s: Seq<char>, sep: char) -> Seq<Seq<char>> {
    split_from(s, sep, 0)
}

/// `line` without a carriage return at its end.
pub open spec fn strip_cr(line: Seq<char>) -> Seq<char> {
    if line.len() > 0 && line.last() == '\r' {
        line.drop_last()
    } else {
        line
    }
}

/// The lines of `text` from index `from` on. A line ends at a line feed,
/// which is left out together with a carriage return just before it; what
/// follows the last line feed is a line only when it is not empty.
pub open spec fn lines_from(text: Seq<char>, from: int) -> Seq<Seq<char>>
    decreases text.len() - from,
{
    if from < 0 || from >= text.len() {
        Seq::empty()
    } else if scan_char(text, '\n', from) >= text.len() || scan_char(text, '\n', from) < from {
        seq![text.subrange(from, text.len() as int)]
    } else {
        seq![strip_cr(text.subrange(from, scan_char(text, '\n', from)))] + lines_from(
            text,
            scan_char(text, '\n', from) + 1,
        )
    }
}

/// The lines of `text`.
pub open spec fn lines(text: Seq<char>) -> Seq<Seq<char>> {
    lines_from(text, 0)
}

/// Whether `char::is_whitespace` holds of `c`: whether Unicode gives the
/// character the property `White_Space`.
pub uninterp spec fn char_is_whitespace(c: char) -> bool;

/// Whether `char::is_alphanumeric` holds of `c`: whether Unicode counts the
/// character as alphabetic or as a number.
pub uninterp spec fn char_is_alphanumeric(c: char) -> bool;

/// The character sequences held by a sequence of vectors.
pub open spec fn views(v: Seq<Vec<char>>) -> Seq<Seq<char>> {
    v.map_values(|x: Vec<char>| x@)
}

/// The first occurrence found by `scan_char` lies in range, holds `c` when
/// it is an index, and nothing before it (from `from` on) is `c`.
pub proof fn lemma_scan_char(s: Seq<char>, c: char, from: int)
    requires
        0 <= from <= s.len(),
    ensures
        from <= scan_char(s, c, from) <= s.len(),
        scan_char(s, c, from) < s.len() ==> s[scan_char(s, c, from)] == c,
        forall|j: int| from <= j < scan_char(s, c, from) ==> s[j] != c,
    decreases s.len() - from,
{
    if from < s.len() && s[from] != c {
        lemma_scan_char(s, c, from + 1);
    }
}

/// `find_char` reaches the end exactly when `c` does not occur.
pub proof fn lemma_find_char_contains(s: Seq<char>, c: char)
    ensures
        find_char(s, c) < s.len() <==> s.contains(c),
        0 <= find_char(s, c) <= s.len(),
{
    lemma_scan_char(s, c, 0);
    if s.contains(c) {
        let j = choose|j: int| 0 <= j < s.len() && s[j] == c;
        assert(s[j] == c);
    }
}

/// The first occurrence found by `scan_sub` lies in range, is a match when
/// it is an index, and no match starts before it (from `from` on).
pub proof fn lemma_scan_sub(s: Seq<char>, pat: Seq<char>, from: int)
    requires
        0 <= from <= s.len(),
    ensures
        from <= scan_sub(s, pat, from) <= s.len(),
        scan_sub(s, pat, from) < s.len() ==> matches_at(s, pat, scan_sub(s, pat, from)),
        forall|j: int| from <= j < scan_sub(s, pat, from) && j < s.len() ==> !matches_at(s, pat, j),
    decreases s.len() - from,
{
    if from < s.len() && from + pat.len() <= s.len() && !matches_at(s, pat, from) {
        lemma_scan_sub(s, pat, from + 1);
    }
}

/// The characters of `s`, in order.
pub fn chars_of(s: &str) -> (out: Vec<char>)
    ensures
        out@ == s@,
{
    let mut out: Vec<char> = Vec::new();
    for c in it: s.chars()
        invariant
            out@ == it.seq().take(it.index() as int),
            it.seq() == s@,
    {
        out.push(c);
    }
    out
}

/// Builds a string from characters with `String::from_iter`; the result
/// holds exactly the given characters, in order.
#[verifier::external_body]
pub(crate) fn string_from_chars(chars: &[char]) -> (out: String)
    ensures
        out@ == chars@,
{
    String::from_iter(chars)
}

/// Calls `char::is_whitespace`, which depends on the character alone.
#[verifier::external_body]
pub(crate) fn is_whitespace(c: char) -> (out: bool)
    ensures
        out == char_is_whitespace(c),
{
    c.is_whitespace()
}

/// Calls `char::is_alphanumeric`, which depends on the character alone.
#[verifier::external_body]
pub(crate) fn is_alphanumeric(c: char) -> (out: bool)
    ensures
        out == char_is_alphanumeric(c),
{
    c.is_alphanumeric()
}

/// Copy of the characters of `s` from `from` up to, not including, `to`.
pub fn copy_range(s: &[char], from: usize, to: usize) -> (out: Vec<char>)
    requires
        from <= to <= s.len(),
    ensures
        out@ == s@.subrange(from as int, to as int),
{
    let mut out: Vec<char> = Vec::new();
    let mut i: usize = from;
    while i < to
        invariant
            from <= i <= to <= s.len(),
            out@ == s@.subrange(from as int, i as int),
        decreases to - i,
    {
        out.push(s[i]);
        i += 1;
    }
    out
}

/// First index at or after `from` that holds `c`, or the length of `s`.
pub fn index_of_char_from(s: &[char], c: char, from: usize) -> (at: usize)
    requires
        from <= s.len(),
    ensures
        at == scan_char(s@, c, from as int),
        from <= at <= s.len(),
{
    let mut i: usize = from;
    while i < s.len()
        invariant
            from <= i <= s.len(),
            scan_char(s@, c, from as int) == scan_char(s@, c, i as int),
        decreases s.len() - i,
    {
        if s[i] == c {
            return i;
        }
        i += 1;
    }
    i
}

/// First index that holds `c`, or the length of `s`.
pub fn index_of_char(s: &[char], c: char) -> (at: usize)
    ensures
        at == find_char(s@, c),
        at <= s.len(),
        at < s.len() <==> s@.contains(c),
{
    proof {
        lemma_find_char_contains(s@, c);
    }
    index_of_char_from(s, c, 0)
}

/// Whether `pat` occurs in `s` at index `at`.
pub fn has_match_at(s: &[char], pat: &[char], at: usize) -> (hit: bool)
    requires
        at <= s.len(),
    ensures
        hit == matches_at(s@, pat@, at as int),
{
    if pat.len() > s.len() - at {
        return false;
    }
    let mut k: usize = 0;
    while k < pat.len()
        invariant
            at + pat.len() <= s.len(),
            k <= pat.len(),
            forall|j: int| 0 <= j < k ==> s@[at + j] == pat@[j],
        decreases pat.len() - k,
    {
        if s[at + k] != pat[k] {
            proof {
                let sub = s@.subrange(at as int, at + pat@.len());
                assert(sub[k as int] == s@[at + k]);
            }
            return false;
        }
        k += 1;
    }
    proof {
        assert(s@.subrange(at as int, at + pat@.len()) =~= pat@);
    }
    true
}

/// First index at which `pat` occurs in `s`, or the length of `s`.
pub fn index_of_sub(s: &[char], pat: &[char]) -> (at: usize)
    ensures
        at == find_sub(s@, pat@),
        at <= s.len(),
        at < s.len() ==> matches_at(s@, pat@, at as int),
{
    proof {
        lemma_scan_sub(s@, pat@, 0);
    }
    let mut i: usize = 0;
    while i < s.len()
        invariant
            i <= s.len(),
            scan_sub(s@, pat@, 0) == scan_sub(s@, pat@, i as int),
        decreases s.len() - i,
    {
        if has_match_at(s, pat, i) {
            return i;
        }
        i += 1;
    }
    i
}

/// Lower-case form of an ASCII letter; every other character is unchanged.
pub fn to_lower(c: char) -> (out: char)
    ensures
        out == lower(c),
{
    if 'A' <= c && c <= 'Z' {
        ((c as u8) + 32) as char
    } else {
        c
    }
}

/// Whether `a` and `b` are equal up to the case of ASCII letters.
pub fn equals_ignore_case(a: &[char], b: &[char]) -> (same: bool)
    ensures
        same == eq_ignore_case(a@, b@),
{
    if a.len() != b.len() {
        return false;
    }
    let mut i: usize = 0;
    while i < a.len()
        invariant
            a.len() == b.len(),
            i <= a.len(),
            forall|j: int| 0 <= j < i ==> lower(#[trigger] a@[j]) == lower(b@[j]),
        decreases a.len() - i,
    {
        if to_lower(a[i]) != to_lower(b[i]) {
            return false;
        }
        i += 1;
    }
    true
}

/// Whether `a` and `b` hold the same characters.
pub fn equals(a: &[char], b: &[char]) -> (same: bool)
    ensures
        same == (a@ == b@),
{
    if a.len() != b.len() {
        return false;
    }
    let mut i: usize = 0;
    while i < a.len()
        invariant
            a.len() == b.len(),
            i <= a.len(),
            forall|j: int| 0 <= j < i ==> a@[j] == b@[j],
        decreases a.len() - i,
    {
        if a[i] != b[i] {
            return false;
        }
        i += 1;
    }
    proof {
        assert(a@ =~= b@);
    }
    true
}

/// The pieces of `s`, cut at every `sep`.
pub fn split_on(s: &[char], sep: char) -> (out: Vec<Vec<char>>)
    ensures
        views(out@) == split(s@, sep),
        out.len() >= 1,
{
    let mut out: Vec<Vec<char>> = Vec::new();
    let mut from: usize = 0;
    loop
        invariant
            from <= s.len(),
            split(s@, sep) == views(out@) + split_from(s@, sep, from as int),
        decreases s.len() - from,
    {
        let at = index_of_char_from(s, sep, from);
        let ghost before = out@;
        if at >= s.len() {
            out.push(copy_range(s, from, s.len()));
            proof {
                assert(views(out@) =~= views(before).push(s@.subrange(from as int, s@.len() as int)));
                assert(views(out@) =~= views(before) + split_from(s@, sep, from as int));
            }
            return out;
        }
        out.push(copy_range(s, from, at));
        proof {
            assert(views(out@) =~= views(before).push(s@.subrange(from as int, at as int)));
            assert(views(before) + split_from(s@, sep, from as int) =~= views(out@) + split_from(
                s@,
                sep,
                at + 1,
            ));
        }
        from = at + 1;
    }
}

/// The lines of `text`.
pub fn lines_of(text: &[char]) -> (out: Vec<Vec<char>>)
    ensures
        views(out@) == lines(text@),
{
    let mut out: Vec<Vec<char>> = Vec::new();
    let mut from: usize = 0;
    while from < text.len()
        invariant
            from <= text.len(),
            lines(text@) == views(out@) + lines_from(text@, from as int),
        decreases text.len() - from,
    {
        let at = index_of_char_from(text, '\n', from);
        let ghost before = out@;
        if at >= text.len() {
            out.push(copy_range(text, from, text.len()));
            proof {
                assert(views(out@) =~= views(before).push(
                    text@.subrange(from as int, text@.len() as int),
                ));
                assert(views(out@) =~= views(before) + lines_from(text@, from as int));
            }
            return out;
        }
        let end = if at > from && text[at - 1] == '\r' {
            at - 1
        } else {
            at
        };
        out.push(copy_range(text, from, end));
        proof {
            let raw = text@.subrange(from as int, at as int);
            assert(strip_cr(raw) =~= text@.subrange(from as int, end as int));
            assert(views(out@) =~= views(before).push(strip_cr(raw)));
            assert(views(before) + lines_from(text@, from as int) =~= views(out@) + lines_from(
                text@,
                at + 1,
            ));
        }
        from = at + 1;
    }
    proof {
        assert(views(out@) + lines_from(text@, from as int) =~= views(out@));
    }
    out
}

} // verus!
