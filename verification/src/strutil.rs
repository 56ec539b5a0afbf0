//! Small verified helpers for working with strings as sequences of
//! characters: conversion to and from character vectors, equality, and
//! splitting a text into its lines.

use vstd::prelude::*;

verus! {

/// Converts a string slice into the vector of its characters.
pub fn to_chars(s: &str) -> (r: Vec<char>)
    ensures
        r@ == s@,
{
    let n: usize = s.unicode_len();
    let mut r: Vec<char> = Vec::new();
    let mut i: usize = 0;
    while i < n
        invariant
            i <= n,
            n == s@.len(),
            r@ == s@.subrange(0, i as int),
        decreases n - i,
    {
        r.push(s.get_char(i));
        i = i + 1;
        proof {
            assert(r@ =~= s@.subrange(0, i as int));
        }
    }
    proof {
        assert(s@.subrange(0, n as int) =~= s@);
    }
    r
}

/// Relies on `String`'s `FromIterator` implementation (through
/// `Iterator::collect`): collecting characters yields the string of exactly
/// those characters, in order.
#[verifier::external_body]
pub fn chars_to_string(v: &Vec<char>) -> (r: String)
    ensures
        r@ == v@,
{
    v.iter().collect()
}

/// Compares two string slices character by character.
pub fn str_eq(a: &str, b: &str) -> (r: bool)
    ensures
        r == (a@ == b@),
{
    let na: usize = a.unicode_len();
    let nb: usize = b.unicode_len();
    if na != nb {
        return false;
    }
    let mut i: usize = 0;
    while i < na
        invariant
            i <= na,
            na == a@.len(),
            nb == b@.len(),
            na == nb,
            forall|j: int| 0 <= j < i ==> a@[j] == b@[j],
        decreases na - i,
    {
        if a.get_char(i) != b.get_char(i) {
            return false;
        }
        i = i + 1;
    }
    proof {
        assert(a@ =~= b@);
    }
    true
}

/// A line with a trailing carriage return gets it removed; any other line is
/// kept as it is.
pub open spec fn strip_cr(l: Seq<char>) -> Seq<char> {
    if l.len() > 0 && l.last() == '\r' {
        l.drop_last()
    } else {
        l
    }
}

/// The position of the first newline at or after `i`, or the length of the
/// text when there is none.
pub open spec fn find_nl(t: Seq<char>, i: int) -> int
    decreases t.len() - i,
{
    if i < 0 || i >= t.len() {
        t.len() as int
    } else if t[i] == '\n' {
        i
    } else {
        find_nl(t, i + 1)
    }
}

/// The lines of the text from position `i` on: pieces split at newlines,
/// each with a trailing carriage return removed, and with no empty line
/// after a final newline.
pub open spec fn split_lines_from(t: Seq<char>, i: int) -> Seq<Seq<char>>
    decreases t.len() - i,
        via split_lines_from_dec
{
    if i < 0 || i >= t.len() {
        Seq::empty()
    } else {
        let j = find_nl(t, i);
        seq![strip_cr(t.subrange(i, j))] + if j < t.len() {
            split_lines_from(t, j + 1)
        } else {
            Seq::empty()
        }
    }
}

#[via_fn]
proof fn split_lines_from_dec(t: Seq<char>, i: int) {
    if 0 <= i < t.len() {
        lemma_find_nl_bounds(t, i);
    }
}

/// The lines of a whole text.
pub open spec fn line_seq(t: Seq<char>) -> Seq<Seq<char>> {
    split_lines_from(t, 0)
}

proof fn lemma_find_nl_bounds(t: Seq<char>, i: int)
    requires
        0 <= i <= t.len(),
    ensures
        i <= find_nl(t, i) <= t.len(),
        find_nl(t, i) < t.len() ==> t[find_nl(t, i)] == '\n',
        forall|k: int| i <= k < find_nl(t, i) ==> t[k] != '\n',
    decreases t.len() - i,
{
    if i < t.len() && t[i] != '\n' {
        lemma_find_nl_bounds(t, i + 1);
    }
}

proof fn lemma_find_nl_at(t: Seq<char>, i: int, j: int)
    requires
        0 <= i <= j <= t.len(),
        forall|k: int| i <= k < j ==> t[k] != '\n',
        j == t.len() || t[j] == '\n',
    ensures
        find_nl(t, i) == j,
    decreases j - i,
{
    if i < j {
        lemma_find_nl_at(t, i + 1, j);
    }
}

/// Splits a character vector into its lines, as `line_seq` describes.
pub fn split_lines(t: &Vec<char>) -> (r: Vec<Vec<char>>)
    ensures
        r.deep_view() == line_seq(t@),
{
    let n: usize = t.len();
    let mut r: Vec<Vec<char>> = Vec::new();
    let mut i: usize = 0;
    while i < n
        invariant
            i <= n,
            n == t@.len(),
            line_seq(t@) == r.deep_view() + split_lines_from(t@, i as int),
        decreases n - i,
    {
        // Find the next newline (or the end of the text).
        let mut j: usize = i;
        while j < n && t[j] != '\n'
            invariant
                i <= j <= n,
                n == t@.len(),
                forall|k: int| i <= k < j ==> t@[k] != '\n',
            decreases n - j,
        {
            j = j + 1;
        }
        proof {
            lemma_find_nl_at(t@, i as int, j as int);
        }
        // Copy the line and strip a trailing carriage return.
        let mut line: Vec<char> = Vec::new();
        let mut k: usize = i;
        while k < j
            invariant
                i <= k <= j <= n,
                n == t@.len(),
                line@ == t@.subrange(i as int, k as int),
            decreases j - k,
        {
            line.push(t[k]);
            k = k + 1;
            proof {
                assert(line@ =~= t@.subrange(i as int, k as int));
            }
        }
        if line.len() > 0 && line[line.len() - 1] == '\r' {
            line.pop();
            proof {
                assert(line@ =~= strip_cr(t@.subrange(i as int, j as int)));
            }
        }
        proof {
            assert(line@ == strip_cr(t@.subrange(i as int, j as int)));
        }
        let ghost prev = r.deep_view();
        r.push(line);
        proof {
            assert(r.deep_view() =~~= prev.push(line@));
            assert(split_lines_from(t@, i as int) == seq![strip_cr(t@.subrange(i as int, j as int))]
                + if (j as int) < t@.len() {
                split_lines_from(t@, j + 1)
            } else {
                Seq::<Seq<char>>::empty()
            });
        }
        if j == n {
            proof {
                assert(line_seq(t@) =~~= r.deep_view() + split_lines_from(t@, n as int));
            }
            i = n;
        } else {
            proof {
                assert(line_seq(t@) =~~= r.deep_view() + split_lines_from(t@, j + 1 as int));
            }
            i = j + 1;
        }
    }
    proof {
        assert(r.deep_view() =~~= line_seq(t@));
    }
    r
}

} // verus!
