//! Texts as sequences of characters: where one text occurs in another, and
//! the replacement of its first occurrence.

use vstd::prelude::*;

verus! {

/// The view of an optional owned string.
pub open spec fn opt_string_view(field: Option<String>) -> Option<Seq<char>> {
    match field {
        Some(text) => Some(text@),
        None => None,
    }
}

/// The view of an optional string slice.
pub open spec fn opt_str_view(field: Option<&str>) -> Option<Seq<char>> {
    match field {
        Some(text) => Some(text@),
        None => None,
    }
}

/// The text of an optional field: the field itself, or the empty string.
pub open spec fn text_or_empty(field: Option<Seq<char>>) -> Seq<char> {
    match field {
        Some(text) => text,
        None => Seq::empty(),
    }
}

/// `pattern` stands in `text` from position `at` on.
pub open spec fn occurs_at(text: Seq<char>, pattern: Seq<char>, at: int) -> bool {
    &&& 0 <= at
    &&& at + pattern.len() <= text.len()
    &&& text.subrange(at, at + pattern.len()) == pattern
}

/// `pattern` stands somewhere in `text`.
pub open spec fn occurs(text: Seq<char>, pattern: Seq<char>) -> bool {
    exists|at: int| occurs_at(text, pattern, at)
}

/// `pattern` stands in `text` at `at`, and at no position before it.
pub open spec fn first_occurs_at(text: Seq<char>, pattern: Seq<char>, at: int) -> bool {
    &&& occurs_at(text, pattern, at)
    &&& forall|before: int| 0 <= before < at ==> !occurs_at(text, pattern, before)
}

/// The first position at which `pattern` stands in `text`, where it stands
/// in it at all.
pub open spec fn first_occurrence(text: Seq<char>, pattern: Seq<char>) -> int {
    choose|at: int| first_occurs_at(text, pattern, at)
}

/// `text` with the first occurrence of `pattern` replaced by `with`; `text`
/// itself where `pattern` does not occur in it.
pub open spec fn replaced_first(
    text: Seq<char>,
    pattern: Seq<char>,
    with: Seq<char>,
) -> Seq<char> {
    if occurs(text, pattern) {
        let at = first_occurrence(text, pattern);
        text.subrange(0, at) + with + text.subrange(at + pattern.len(), text.len() as int)
    } else {
        text
    }
}

/// There is at most one first occurrence.
pub proof fn first_occurrence_is_unique(text: Seq<char>, pattern: Seq<char>, a: int, b: int)
    requires
        first_occurs_at(text, pattern, a),
        first_occurs_at(text, pattern, b),
    ensures
        a == b,
{
}

/// A first occurrence, once found, is the one that `first_occurrence` names.
pub proof fn first_occurrence_found(text: Seq<char>, pattern: Seq<char>, at: int)
    requires
        first_occurs_at(text, pattern, at),
    ensures
        occurs(text, pattern),
        first_occurrence(text, pattern) == at,
{
    first_occurrence_is_unique(text, pattern, at, first_occurrence(text, pattern));
}

/// A pattern that occurs has a first occurrence.
pub proof fn occurring_has_first(text: Seq<char>, pattern: Seq<char>)
    requires
        occurs(text, pattern),
    ensures
        first_occurs_at(text, pattern, first_occurrence(text, pattern)),
{
    let some = choose|at: int| occurs_at(text, pattern, at);
    least_occurrence(text, pattern, some);
}

/// Below every occurrence lies a first one.
proof fn least_occurrence(text: Seq<char>, pattern: Seq<char>, at: int)
    requires
        occurs_at(text, pattern, at),
    ensures
        exists|first: int| first_occurs_at(text, pattern, first),
    decreases at,
{
    if exists|before: int| 0 <= before < at && occurs_at(text, pattern, before) {
        let before = choose|before: int| 0 <= before < at && occurs_at(text, pattern, before);
        least_occurrence(text, pattern, before);
    } else {
        assert(first_occurs_at(text, pattern, at));
    }
}

/// Where `pattern` occurs in `text`, the text with its first occurrence
/// replaced holds whatever the replacement holds.
pub proof fn replacement_is_shown(
    text: Seq<char>,
    pattern: Seq<char>,
    with: Seq<char>,
    part: Seq<char>,
)
    requires
        occurs(text, pattern),
        occurs(with, part),
    ensures
        occurs(replaced_first(text, pattern, with), part),
{
    occurring_has_first(text, pattern);
    let at = first_occurrence(text, pattern);
    let inside = choose|inside: int| occurs_at(with, part, inside);
    let replaced = replaced_first(text, pattern, with);
    assert(replaced.subrange(at + inside, at + inside + part.len()) =~= with.subrange(
        inside,
        inside + part.len(),
    ));
    assert(occurs_at(replaced, part, at + inside));
}

/// Returns the characters of `text`, in order.
pub fn chars_of(text: &str) -> (chars: Vec<char>)
    ensures
        chars@ == text@,
{
    let mut chars: Vec<char> = Vec::new();
    for c in it: text.chars()
        invariant
            chars@ == it.seq().take(it.index() as int),
    {
        chars.push(c);
    }
    chars
}

/// Tells whether `pattern` stands in `text` from position `at` on.
pub fn matches_at(text: &Vec<char>, pattern: &Vec<char>, at: usize) -> (found: bool)
    ensures
        found == occurs_at(text@, pattern@, at as int),
{
    if at > text.len() || pattern.len() > text.len() - at {
        return false;
    }
    let mut seen: usize = 0;
    while seen < pattern.len()
        invariant
            seen <= pattern.len(),
            at + pattern.len() <= text.len(),
            forall|i: int| 0 <= i < seen ==> text[at + i] == pattern[i],
        decreases pattern.len() - seen,
    {
        if text[at + seen] != pattern[seen] {
            assert(text@.subrange(at as int, at + pattern.len())[seen as int] != pattern@[seen as int]);
            return false;
        }
        seen = seen + 1;
    }
    assert(text@.subrange(at as int, at + pattern.len()) =~= pattern@);
    true
}

/// Tells whether two texts hold the same characters.
pub fn same_text(a: &str, b: &str) -> (same: bool)
    ensures
        same == (a@ == b@),
{
    let a_chars = chars_of(a);
    let b_chars = chars_of(b);
    if a_chars.len() != b_chars.len() {
        return false;
    }
    assert(a@.subrange(0, a@.len() as int) =~= a@);
    matches_at(&a_chars, &b_chars, 0)
}

/// Finds the first position at which `pattern` stands in `text`.
pub fn find_first(text: &Vec<char>, pattern: &Vec<char>) -> (found: Option<usize>)
    ensures
        match found {
            Some(at) => first_occurs_at(text@, pattern@, at as int),
            None => !occurs(text@, pattern@),
        },
{
    if pattern.len() > text.len() {
        return None;
    }
    let last: usize = text.len() - pattern.len();
    let mut at: usize = 0;
    while at < last
        invariant
            last == text.len() - pattern.len(),
            at <= last,
            forall|before: int| 0 <= before < at ==> !occurs_at(text@, pattern@, before),
        decreases last - at,
    {
        if matches_at(text, pattern, at) {
            return Some(at);
        }
        at = at + 1;
    }
    if matches_at(text, pattern, at) {
        Some(at)
    } else {
        None
    }
}

/// Returns `text` with the first occurrence of `pattern` replaced by `with`,
/// or a copy of `text` where `pattern` does not occur in it.
pub fn replace_first(text: &str, pattern: &str, with: &str) -> (replaced: String)
    ensures
        replaced@ == replaced_first(text@, pattern@, with@),
{
    let text_chars = chars_of(text);
    let pattern_chars = chars_of(pattern);
    match find_first(&text_chars, &pattern_chars) {
        Some(at) => {
            proof {
                assert(at + pattern_chars.len() <= text_chars.len());
                first_occurrence_found(text@, pattern@, at as int);
            }
            let mut replaced = text.substring_char(0, at).to_owned();
            replaced.append(with);
            replaced.append(text.substring_char(at + pattern_chars.len(), text_chars.len()));
            replaced
        },
        None => text.to_owned(),
    }
}

} // verus!
