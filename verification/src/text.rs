//! Searching in text, character by character.

use vstd::prelude::*;
use vstd::string::*;

verus! {

/// `pattern` stands in `text` at position `at`.
pub open spec fn occurs_at(text: Seq<char>, pattern: Seq<char>, at: int) -> bool {
    &&& 0 <= at
    &&& at + pattern.len() <= text.len()
    &&& text.subrange(at, at + pattern.len()) == pattern
}

/// `at` is the first position from `from` on where `pattern` stands in `text`.
pub open spec fn is_first_occurrence(
    text: Seq<char>,
    pattern: Seq<char>,
    from: int,
    at: int,
) -> bool {
    &&& from <= at
    &&& occurs_at(text, pattern, at)
    &&& forall|k: int| from <= k < at ==> !occurs_at(text, pattern, k)
}

/// `text` begins with `pattern`.
pub open spec fn has_prefix(text: Seq<char>, pattern: Seq<char>) -> bool {
    occurs_at(text, pattern, 0)
}

/// The characters of a text, one by one.
pub fn to_chars(text: &str) -> (chars: Vec<char>)
    ensures
        chars@ == text@,
{
    let mut chars: Vec<char> = Vec::new();
    for c in it: text.chars()
        invariant
            chars@ == it.seq().take(it.index() as int),
            it.seq() == text@,
    {
        chars.push(c);
    }
    chars
}

/// Tells whether `pattern` stands in `text` at `at`.
pub fn matches_at(text: &Vec<char>, pattern: &Vec<char>, at: usize) -> (found: bool)
    ensures
        found == occurs_at(text@, pattern@, at as int),
{
    if pattern.len() > text.len() || at > text.len() - pattern.len() {
        return false;
    }
    let mut k: usize = 0;
    while k < pattern.len()
        invariant
            k <= pattern.len(),
            at + pattern.len() <= text.len(),
            forall|n: int| 0 <= n < k ==> text@[at + n] == pattern@[n],
        decreases pattern.len() - k,
    {
        if text[at + k] != pattern[k] {
            assert(text@.subrange(at as int, at + pattern.len())[k as int] != pattern@[k as int]);
            return false;
        }
        k += 1;
    }
    assert(text@.subrange(at as int, at + pattern.len()) =~= pattern@);
    true
}

/// Finds the first position from `from` on where `pattern` stands in `text`.
pub fn find(text: &Vec<char>, pattern: &Vec<char>, from: usize) -> (found: Option<usize>)
    ensures
        match found {
            Some(at) => is_first_occurrence(text@, pattern@, from as int, at as int),
            None => forall|k: int| from <= k ==> !occurs_at(text@, pattern@, k),
        },
{
    let mut at = from;
    while at < text.len()
        invariant
            from <= at,
            forall|k: int| from <= k < at ==> !occurs_at(text@, pattern@, k),
        decreases text.len() - at,
    {
        if matches_at(text, pattern, at) {
            return Some(at);
        }
        at += 1;
    }
    if at == text.len() && matches_at(text, pattern, at) {
        return Some(at);
    }
    None
}

/// Tells whether `text` begins with `pattern`.
pub fn starts_with(text: &str, pattern: &str) -> (found: bool)
    ensures
        found == has_prefix(text@, pattern@),
{
    let chars = to_chars(text);
    let wanted = to_chars(pattern);
    matches_at(&chars, &wanted, 0)
}

} // verus!
