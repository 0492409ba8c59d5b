//! Splitting a raw stream title into a short name and a description.

use crate::text::{
    chars_of, find, find_first, is_ascii_alphanumeric, is_ascii_whitespace, trim_range, trimmed,
};
use vstd::prelude::*;

verus! {

/// The separator between name and description: space, hyphen, space.
pub open spec fn separator() -> Seq<char> {
    seq![' ', '-', ' ']
}

/// Characters of ordinary title text: ASCII letters, digits and whitespace.
/// Every other character counts as decoration.
pub open spec fn spec_is_plain(c: char) -> bool {
    is_ascii_alphanumeric(c) || is_ascii_whitespace(c)
}

#[verifier::when_used_as_spec(spec_is_plain)]
pub fn is_plain(c: char) -> (b: bool)
    ensures
        b == spec_is_plain(c),
{
    is_ascii_alphanumeric(c) || is_ascii_whitespace(c)
}

/// At `e` a plain character directly follows a decoration character.
pub open spec fn boundary_at(s: Seq<char>, e: int) -> bool {
    0 < e < s.len() && !is_plain(s[e - 1]) && is_plain(s[e])
}

/// `e` is the leftmost boundary of `s`: the end of its first run of
/// decoration characters, where plain text follows that run.
pub open spec fn is_first_boundary(s: Seq<char>, e: int) -> bool {
    boundary_at(s, e) && forall|j: int| 0 < j < e ==> !boundary_at(s, j)
}

/// The end of the first run of decoration characters of `s`, if plain text
/// follows it.
pub open spec fn first_boundary(s: Seq<char>) -> Option<int> {
    if exists|e: int| boundary_at(s, e) {
        Some(choose|e: int| is_first_boundary(s, e))
    } else {
        None
    }
}

/// A leftmost boundary is the one that `first_boundary` names.
pub proof fn lemma_first_boundary(s: Seq<char>, e: int)
    requires
        is_first_boundary(s, e),
    ensures
        first_boundary(s) == Some(e),
{
    let j = choose|j: int| is_first_boundary(s, j);
    assert(is_first_boundary(s, j));
    assert(j == e);
}

/// Name and description of a title.
///
/// A title that holds the separator is split at its first occurrence, and
/// both sides are trimmed. Otherwise a title whose first run of decoration
/// characters is followed by plain text is split after that run, and both
/// sides are trimmed. Any other title is its own name, untrimmed, with an
/// empty description.
pub open spec fn parsed_title(s: Seq<char>) -> (Seq<char>, Seq<char>) {
    match find_first(s, separator()) {
        Some(i) => (trimmed(s.take(i)), trimmed(s.skip(i + 3))),
        None => match first_boundary(s) {
            Some(e) => (trimmed(s.take(e)), trimmed(s.skip(e))),
            None => (s, Seq::empty()),
        },
    }
}

/// The position after the first run of decoration characters of `v`, if
/// plain text follows that run.
pub fn find_boundary(v: &Vec<char>) -> (split: Option<usize>)
    ensures
        split is Some <==> first_boundary(v@) is Some,
        split matches Some(e) ==> is_first_boundary(v@, e as int),
        split matches Some(e) ==> first_boundary(v@) == Some(e as int),
{
    let n: usize = v.len();
    let mut decorated: bool = false;
    let mut i: usize = 0;
    while i < n
        invariant
            i <= n,
            n == v.len(),
            decorated <==> (i > 0 && !is_plain(v@[i - 1])),
            forall|j: int| 0 < j < i ==> !boundary_at(v@, j),
        decreases n - i,
    {
        if is_plain(v[i]) {
            if decorated {
                proof {
                    lemma_first_boundary(v@, i as int);
                }
                return Some(i);
            }
        } else {
            decorated = true;
        }
        i += 1;
    }
    None
}

fn owned_range(title: &str, from: usize, to: usize) -> (part: String)
    requires
        from <= to <= title@.len(),
    ensures
        part@ == title@.subrange(from as int, to as int),
{
    title.substring_char(from, to).to_owned()
}

/// Splits a raw title into a name and a description.
pub fn parse_title(title: &str) -> (parts: (String, String))
    ensures
        parts.0@ == parsed_title(title@).0,
        parts.1@ == parsed_title(title@).1,
{
    let chars = chars_of(title);
    let n: usize = chars.len();
    let mut pattern: Vec<char> = Vec::new();
    pattern.push(' ');
    pattern.push('-');
    pattern.push(' ');
    assert(pattern@ =~= separator());
    proof {
        assert(title@.take(n as int) =~= title@);
    }
    match find(&chars, &pattern) {
        Some(pos) => {
            let (a, b) = trim_range(&chars, 0, pos);
            let (c, d) = trim_range(&chars, pos + 3, n);
            proof {
                assert(title@.take(pos as int) =~= title@.subrange(0, pos as int));
                assert(title@.skip(pos + 3) =~= title@.subrange(pos + 3, n as int));
            }
            (owned_range(title, a, b), owned_range(title, c, d))
        },
        None => match find_boundary(&chars) {
            Some(end) => {
                let (a, b) = trim_range(&chars, 0, end);
                let (c, d) = trim_range(&chars, end, n);
                proof {
                    assert(title@.take(end as int) =~= title@.subrange(0, end as int));
                    assert(title@.skip(end as int) =~= title@.subrange(end as int, n as int));
                }
                (owned_range(title, a, b), owned_range(title, c, d))
            },
            None => (title.to_owned(), String::new()),
        },
    }
}

} // verus!
