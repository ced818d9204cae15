//! Case-insensitive substring matching, the predicate behind recipe search.
//!
//! Letters are compared after folding the ASCII upper-case letters onto their
//! lower-case twins; every other character only matches itself.

use vstd::prelude::*;
use vstd::string::{StrSliceExecFns, StringExecFns};

verus! {

/// The code point a character is compared by: `A`..`Z` fold onto `a`..`z`.
pub open spec fn fold(c: char) -> int {
    let code = c as int;
    if 65 <= code <= 90 {
        code + 32
    } else {
        code
    }
}

/// `term` occurs in `text` starting at position `at`, ignoring ASCII case.
pub open spec fn matches_at(text: Seq<char>, term: Seq<char>, at: int) -> bool {
    &&& 0 <= at
    &&& at + term.len() <= text.len()
    &&& forall|j: int| 0 <= j < term.len() ==> fold(text[at + j]) == fold(#[trigger] term[j])
}

/// `term` occurs somewhere in `text`, ignoring ASCII case. The empty term
/// occurs in every text.
pub open spec fn contains_term(text: Seq<char>, term: Seq<char>) -> bool {
    exists|at: int| matches_at(text, term, at)
}

/// Folds one character for comparison.
pub fn fold_char(c: char) -> (code: u32)
    ensures
        code == fold(c),
{
    let code: u32 = c as u32;
    if 65 <= code && code <= 90 {
        code + 32
    } else {
        code
    }
}

/// The characters of a string, in order.
pub fn chars_of(s: &str) -> (chars: Vec<char>)
    ensures
        chars@ == s@,
{
    let mut chars: Vec<char> = Vec::new();
    for c in it: s.chars()
        invariant
            chars@ == s@.take(it.index() as int),
            it.seq() == s@,
    {
        chars.push(c);
    }
    chars
}

/// Whether `term` stands in `text` at position `at`.
fn matches_here(text: &Vec<char>, term: &Vec<char>, at: usize) -> (found: bool)
    requires
        at + term.len() <= text.len(),
    ensures
        found == matches_at(text@, term@, at as int),
{
    let mut j: usize = 0;
    while j < term.len()
        invariant
            at + term.len() <= text.len(),
            j <= term.len(),
            forall|k: int| 0 <= k < j ==> fold(text@[at + k]) == fold(#[trigger] term@[k]),
        decreases term.len() - j,
    {
        if fold_char(text[at + j]) != fold_char(term[j]) {
            return false;
        }
        j += 1;
    }
    true
}

/// Searches `text` for `term` from the left, ignoring ASCII case.
pub fn contains_chars(text: &Vec<char>, term: &Vec<char>) -> (found: bool)
    ensures
        found == contains_term(text@, term@),
{
    if term.len() > text.len() {
        return false;
    }
    let last: usize = text.len() - term.len();
    let mut at: usize = 0;
    while at <= last
        invariant
            last + term.len() == text.len(),
            at <= last + 1,
            forall|k: int| 0 <= k < at ==> !matches_at(text@, term@, k),
        decreases last + 1 - at,
    {
        if matches_here(text, term, at) {
            return true;
        }
        at += 1;
    }
    false
}

/// Case-insensitive substring test: does `text` contain `term`?
pub fn contains_ignore_case(text: &str, term: &str) -> (found: bool)
    ensures
        found == contains_term(text@, term@),
{
    let text_chars = chars_of(text);
    let term_chars = chars_of(term);
    contains_chars(&text_chars, &term_chars)
}

/// Whether a character means something else than itself in a `LIKE`
/// pattern: the two wildcards and the escape character.
pub open spec fn is_like_special(c: char) -> bool {
    c == '%' || c == '_' || c == '\\'
}

/// A character as it stands in a `LIKE` pattern that matches it literally.
pub open spec fn escaped_char(c: char) -> Seq<char> {
    if is_like_special(c) {
        seq!['\\', c]
    } else {
        seq![c]
    }
}

/// A term as it stands in a `LIKE` pattern that matches it literally: each
/// wildcard and each backslash with a backslash before it.
pub open spec fn escaped(term: Seq<char>) -> Seq<char>
    decreases term.len(),
{
    if term.len() == 0 {
        Seq::empty()
    } else {
        escaped(term.drop_last()) + escaped_char(term.last())
    }
}

/// The term for a `LIKE` or `ILIKE` pattern in which it is to match as
/// plain text, so that a search for `100%` finds `100%` and not `1000`.
pub fn like_escape(term: &str) -> (pattern: String)
    ensures
        pattern@ == escaped(term@),
{
    let mut pattern = String::new();
    let n: usize = term.unicode_len();
    let mut i: usize = 0;
    proof {
        assert(term@.take(0) =~= Seq::empty());
    }
    while i < n
        invariant
            n == term@.len(),
            i <= n,
            pattern@ == escaped(term@.take(i as int)),
        decreases n - i,
    {
        let c = term.get_char(i);
        proof {
            reveal_strlit("\\");
            assert(term@.take(i + 1).drop_last() =~= term@.take(i as int));
            assert(term@.take(i + 1).last() == c);
            assert(term@.subrange(i as int, i + 1) =~= seq![c]);
        }
        if c == '%' || c == '_' || c == '\\' {
            pattern.append("\\");
        }
        pattern.append(term.substring_char(i, i + 1));
        proof {
            assert(pattern@ =~= escaped(term@.take(i as int)) + escaped_char(c));
        }
        i += 1;
    }
    proof {
        assert(term@.take(n as int) =~= term@);
    }
    pattern
}

} // verus!
