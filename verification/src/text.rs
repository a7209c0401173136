//! Counting pattern occurrences in character sequences.
//!
//! The statement-shape laws speak of how often a token (` WHERE `,
//! ` AND `, `LIKE`) occurs in the generated SQL text. This module gives
//! that notion a definition and the lemmas to compute it over the
//! concatenations the builder produces.

use vstd::prelude::*;

verus! {

/// The pattern occurs in `s` starting at position `i`.
pub open spec fn occurs_at(s: Seq<char>, pat: Seq<char>, i: int) -> bool {
    0 <= i && i + pat.len() <= s.len() && s.subrange(i, i + pat.len()) == pat
}

/// The character occurs nowhere in `s`.
pub open spec fn no_char(s: Seq<char>, c: char) -> bool {
    forall|i: int| 0 <= i < s.len() ==> s[i] != c
}

/// The character occurs nowhere in the pattern.
pub open spec fn char_free(pat: Seq<char>, c: char) -> bool {
    forall|j: int| 0 <= j < pat.len() ==> pat[j] != c
}

/// How many positions at or after `i` the pattern occurs at.
pub open spec fn count_from(s: Seq<char>, pat: Seq<char>, i: int) -> int
    decreases s.len() - i,
{
    if i < 0 || pat.len() <= 0 || i + pat.len() > s.len() {
        0
    } else {
        (if occurs_at(s, pat, i) {
            1int
        } else {
            0
        }) + count_from(s, pat, i + 1)
    }
}

/// How many positions the pattern occurs at in `s`.
pub open spec fn count_occ(s: Seq<char>, pat: Seq<char>) -> int {
    count_from(s, pat, 0)
}

/// No occurrence of the pattern straddles the boundary of `a + b`.
pub open spec fn no_straddle(a: Seq<char>, b: Seq<char>, pat: Seq<char>) -> bool {
    forall|i: int| i < a.len() && i + pat.len() > a.len() ==> !occurs_at(a + b, pat, i)
}

/// Concatenating after `s` leaves every character of `s` in place, so a
/// sequence without a character keeps lacking it.
pub proof fn lemma_no_char_concat(a: Seq<char>, b: Seq<char>, c: char)
    requires
        no_char(a, c),
        no_char(b, c),
    ensures
        no_char(a + b, c),
{
    assert forall|i: int| 0 <= i < (a + b).len() implies (a + b)[i] != c by {
        if i < a.len() {
            assert((a + b)[i] == a[i]);
        } else {
            assert((a + b)[i] == b[i - a.len()]);
        }
    }
}

/// An occurrence wholly inside the left part of a concatenation is an
/// occurrence in that part, and conversely.
proof fn lemma_occurs_left(a: Seq<char>, b: Seq<char>, pat: Seq<char>, i: int)
    requires
        0 <= i,
        i + pat.len() <= a.len(),
    ensures
        occurs_at(a + b, pat, i) == occurs_at(a, pat, i),
{
    assert((a + b).subrange(i, i + pat.len() as int) =~= a.subrange(i, i + pat.len() as int));
}

/// An occurrence wholly inside the right part of a concatenation is an
/// occurrence in that part shifted by the left part's length, and
/// conversely.
proof fn lemma_occurs_right(a: Seq<char>, b: Seq<char>, pat: Seq<char>, i: int)
    requires
        i >= a.len(),
        i + pat.len() <= a.len() + b.len(),
    ensures
        occurs_at(a + b, pat, i) == occurs_at(b, pat, i - a.len()),
{
    assert((a + b).subrange(i, i + pat.len() as int) =~= b.subrange(
        i - a.len(),
        i - a.len() + pat.len() as int,
    ));
}

/// If the last character of `a` occurs nowhere in the pattern, no
/// occurrence can straddle the boundary of `a + b`: a straddling match
/// would cover that character.
pub proof fn lemma_no_straddle_last(a: Seq<char>, b: Seq<char>, pat: Seq<char>)
    requires
        a.len() > 0,
        char_free(pat, a.last()),
    ensures
        no_straddle(a, b, pat),
{
    assert forall|i: int| i < a.len() && i + pat.len() > a.len() implies !occurs_at(
        a + b,
        pat,
        i,
    ) by {
        if occurs_at(a + b, pat, i) {
            let k = a.len() - 1 - i;
            assert((a + b).subrange(i, i + pat.len() as int)[k] == (a + b)[a.len() - 1]);
            assert(pat[k] == a.last());
        }
    }
}

/// If the first character of `b` occurs nowhere in the pattern, no
/// occurrence can straddle the boundary of `a + b`: a straddling match
/// would cover that character.
pub proof fn lemma_no_straddle_first(a: Seq<char>, b: Seq<char>, pat: Seq<char>)
    requires
        b.len() > 0,
        char_free(pat, b[0]),
    ensures
        no_straddle(a, b, pat),
{
    assert forall|i: int| i < a.len() && i + pat.len() > a.len() implies !occurs_at(
        a + b,
        pat,
        i,
    ) by {
        if occurs_at(a + b, pat, i) {
            let k = a.len() - i;
            assert((a + b).subrange(i, i + pat.len() as int)[k] == (a + b)[a.len() as int]);
            assert(pat[k] == b[0]);
        }
    }
}

/// An occurrence pins every character of the pattern to the matched
/// stretch of `s`.
pub proof fn lemma_occurs_chars(s: Seq<char>, pat: Seq<char>, i: int)
    requires
        occurs_at(s, pat, i),
    ensures
        forall|k: int| 0 <= k < pat.len() ==> pat[k] == s[i + k],
{
    assert forall|k: int| 0 <= k < pat.len() implies pat[k] == s[i + k] by {
        assert(s.subrange(i, i + pat.len() as int)[k] == s[i + k]);
    }
}

/// The tail positions of a concatenation count exactly the occurrences
/// in the right part.
proof fn lemma_count_from_right(a: Seq<char>, b: Seq<char>, pat: Seq<char>, i: int)
    requires
        i >= a.len(),
        pat.len() > 0,
    ensures
        count_from(a + b, pat, i) == count_from(b, pat, i - a.len()),
    decreases (a + b).len() - i,
{
    if i + pat.len() > (a + b).len() {
        assert(count_from(a + b, pat, i) == 0);
        assert(count_from(b, pat, i - a.len()) == 0);
    } else {
        lemma_occurs_right(a, b, pat, i);
        lemma_count_from_right(a, b, pat, i + 1);
    }
}

/// When no occurrence straddles the boundary, the positions at or after
/// `i` split into those inside `a` and all of `b`'s.
proof fn lemma_count_from_split(a: Seq<char>, b: Seq<char>, pat: Seq<char>, i: int)
    requires
        pat.len() > 0,
        no_straddle(a, b, pat),
        0 <= i <= a.len(),
    ensures
        count_from(a + b, pat, i) == count_from(a, pat, i) + count_occ(b, pat),
    decreases a.len() - i,
{
    if i == a.len() {
        lemma_count_from_right(a, b, pat, i);
        assert(count_from(a, pat, i) == 0);
    } else {
        lemma_count_from_split(a, b, pat, i + 1);
        if i + pat.len() > (a + b).len() {
            assert(count_from(a + b, pat, i) == 0);
            assert(pat.len() > b.len());
            assert(count_occ(b, pat) == 0);
            assert(count_from(a, pat, i) == 0);
        } else if i + pat.len() <= a.len() {
            lemma_occurs_left(a, b, pat, i);
        } else {
            assert(!occurs_at(a + b, pat, i));
            assert(count_from(a, pat, i) == 0);
            assert(count_from(a, pat, i + 1) == 0);
        }
    }
}

/// Counting over a concatenation whose boundary no occurrence straddles:
/// the counts of the two parts add.
pub proof fn lemma_count_concat(a: Seq<char>, b: Seq<char>, pat: Seq<char>)
    requires
        pat.len() > 0,
        no_straddle(a, b, pat),
    ensures
        count_occ(a + b, pat) == count_occ(a, pat) + count_occ(b, pat),
{
    lemma_count_from_split(a, b, pat, 0);
}

/// A sequence without any occurrence at or after `i` counts zero from
/// there.
proof fn lemma_count_from_none(s: Seq<char>, pat: Seq<char>, i: int)
    requires
        forall|j: int| j >= i ==> !occurs_at(s, pat, j),
    ensures
        count_from(s, pat, i) == 0,
    decreases s.len() - i,
{
    if !(i < 0 || pat.len() <= 0 || i + pat.len() > s.len()) {
        lemma_count_from_none(s, pat, i + 1);
    }
}

/// A sequence without any occurrence counts zero.
pub proof fn lemma_count_none(s: Seq<char>, pat: Seq<char>)
    requires
        forall|j: int| !occurs_at(s, pat, j),
    ensures
        count_occ(s, pat) == 0,
{
    lemma_count_from_none(s, pat, 0);
}

/// A sequence with exactly one occurrence position counts one.
pub proof fn lemma_count_single(s: Seq<char>, pat: Seq<char>, at: int)
    requires
        pat.len() > 0,
        occurs_at(s, pat, at),
        forall|j: int| j != at ==> !occurs_at(s, pat, j),
    ensures
        count_occ(s, pat) == 1,
{
    lemma_count_single_from(s, pat, at, 0);
}

/// Counting from a position at or before the single occurrence sees
/// exactly that occurrence.
proof fn lemma_count_single_from(s: Seq<char>, pat: Seq<char>, at: int, i: int)
    requires
        pat.len() > 0,
        occurs_at(s, pat, at),
        forall|j: int| j != at ==> !occurs_at(s, pat, j),
        0 <= i <= at,
    ensures
        count_from(s, pat, i) == 1,
    decreases at - i,
{
    if i == at {
        lemma_count_from_none(s, pat, i + 1);
    } else {
        lemma_count_single_from(s, pat, at, i + 1);
    }
}

} // verus!
