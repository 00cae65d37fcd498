//! Searching and cutting text, character by character.
//!
//! Every position in this module counts characters, not bytes, so the
//! contracts can speak of a string through its view, a `Seq<char>`.

use vstd::prelude::*;
use vstd::string::*;

verus! {

/// `pattern` stands in `text` at position `i`.
pub open spec fn occurs_at(text: Seq<char>, pattern: Seq<char>, i: int) -> bool {
    &&& 0 <= i
    &&& i + pattern.len() <= text.len()
    &&& text.subrange(i, i + pattern.len()) == pattern
}

/// `pattern` stands somewhere in `text`.
pub open spec fn occurs(text: Seq<char>, pattern: Seq<char>) -> bool {
    exists|i: int| occurs_at(text, pattern, i)
}

/// `i` is the leftmost position at which `pattern` stands in `text`.
pub open spec fn is_first_occurrence(text: Seq<char>, pattern: Seq<char>, i: int) -> bool {
    &&& occurs_at(text, pattern, i)
    &&& forall|j: int| 0 <= j < i ==> !occurs_at(text, pattern, j)
}

/// The leftmost position of `pattern` in `text`; meaningful where `occurs` holds.
pub open spec fn first_occurrence(text: Seq<char>, pattern: Seq<char>) -> int {
    choose|i: int| is_first_occurrence(text, pattern, i)
}

/// `text` with its leftmost occurrence of `pattern` exchanged for `with`;
/// `text` itself where `pattern` does not occur.
pub open spec fn replaced_first(text: Seq<char>, pattern: Seq<char>, with: Seq<char>) -> Seq<
    char,
> {
    if occurs(text, pattern) {
        let i = first_occurrence(text, pattern);
        text.subrange(0, i) + with + text.subrange(i + pattern.len(), text.len() as int)
    } else {
        text
    }
}

/// `text` begins with `prefix`.
pub open spec fn has_prefix(text: Seq<char>, prefix: Seq<char>) -> bool {
    occurs_at(text, prefix, 0)
}

/// `text` ends with `suffix`.
pub open spec fn has_suffix(text: Seq<char>, suffix: Seq<char>) -> bool {
    occurs_at(text, suffix, text.len() - suffix.len())
}

/// `text` without `prefix` at its start; `text` itself where it does not begin with `prefix`.
pub open spec fn without_prefix(text: Seq<char>, prefix: Seq<char>) -> Seq<char> {
    if has_prefix(text, prefix) {
        text.subrange(prefix.len() as int, text.len() as int)
    } else {
        text
    }
}

/// `text` without `suffix` at its end; `text` itself where it does not end with `suffix`.
pub open spec fn without_suffix(text: Seq<char>, suffix: Seq<char>) -> Seq<char> {
    if has_suffix(text, suffix) {
        text.subrange(0, text.len() - suffix.len())
    } else {
        text
    }
}

/// A leftmost occurrence is the only one of its kind.
pub proof fn lemma_first_occurrence_is(text: Seq<char>, pattern: Seq<char>, i: int)
    requires
        is_first_occurrence(text, pattern, i),
    ensures
        occurs(text, pattern),
        first_occurrence(text, pattern) == i,
{
}

/// Among the positions up to `bound` at which `pattern` stands there is a leftmost one.
proof fn lemma_leftmost_below(text: Seq<char>, pattern: Seq<char>, bound: int)
    requires
        occurs_at(text, pattern, bound),
    ensures
        exists|i: int| is_first_occurrence(text, pattern, i),
    decreases bound,
{
    if forall|j: int| 0 <= j < bound ==> !occurs_at(text, pattern, j) {
        assert(is_first_occurrence(text, pattern, bound));
    } else {
        let j = choose|j: int| 0 <= j < bound && occurs_at(text, pattern, j);
        lemma_leftmost_below(text, pattern, j);
    }
}

/// Where `pattern` occurs at all, `first_occurrence` names its leftmost position.
pub proof fn lemma_first_occurrence_exists(text: Seq<char>, pattern: Seq<char>)
    requires
        occurs(text, pattern),
    ensures
        is_first_occurrence(text, pattern, first_occurrence(text, pattern)),
{
    let i = choose|i: int| occurs_at(text, pattern, i);
    lemma_leftmost_below(text, pattern, i);
}

/// The characters of `s`, in order.
pub fn chars_of(s: &str) -> (v: Vec<char>)
    ensures
        v@ == s@,
{
    let mut v: Vec<char> = Vec::new();
    for c in it: s.chars()
        invariant
            v@ == it.seq().take(it.index()),
            it.seq() == s@,
    {
        v.push(c);
    }
    v
}

/// Whether `pattern` stands in `text` at position `at`.
pub fn matches_at(text: &Vec<char>, pattern: &Vec<char>, at: usize) -> (r: bool)
    ensures
        r == occurs_at(text@, pattern@, at as int),
{
    if pattern.len() > text.len() || at > text.len() - pattern.len() {
        return false;
    }
    let mut k: usize = 0;
    while k < pattern.len()
        invariant
            k <= pattern.len(),
            at + pattern.len() <= text.len(),
            forall|j: int| 0 <= j < k ==> text@[at + j] == pattern@[j],
        decreases pattern.len() - k,
    {
        if text[at + k] != pattern[k] {
            return false;
        }
        k += 1;
    }
    assert(text@.subrange(at as int, at + pattern.len()) =~= pattern@);
    true
}

/// The leftmost position at which `pattern` stands in `text`, if there is one.
pub fn find_first(text: &Vec<char>, pattern: &Vec<char>) -> (r: Option<usize>)
    ensures
        match r {
            Some(i) => is_first_occurrence(text@, pattern@, i as int),
            None => !occurs(text@, pattern@),
        },
{
    if pattern.len() > text.len() {
        return None;
    }
    let last: usize = text.len() - pattern.len();
    let mut i: usize = 0;
    loop
        invariant
            i <= last,
            last == text.len() - pattern.len(),
            forall|j: int| 0 <= j < i ==> !occurs_at(text@, pattern@, j),
        decreases last - i,
    {
        if matches_at(text, pattern, i) {
            return Some(i);
        }
        if i == last {
            return None;
        }
        i += 1;
    }
}

/// Whether `text` begins with `prefix`.
pub fn starts_with(text: &str, prefix: &str) -> (r: bool)
    ensures
        r == has_prefix(text@, prefix@),
{
    let t = chars_of(text);
    let p = chars_of(prefix);
    matches_at(&t, &p, 0)
}

/// Whether `text` ends with `suffix`.
pub fn ends_with(text: &str, suffix: &str) -> (r: bool)
    ensures
        r == has_suffix(text@, suffix@),
{
    let t = chars_of(text);
    let s = chars_of(suffix);
    if s.len() > t.len() {
        return false;
    }
    matches_at(&t, &s, t.len() - s.len())
}

/// `text` without `prefix` at its start, or all of `text` where it does not begin with it.
pub fn strip_prefix<'a>(text: &'a str, prefix: &str) -> (r: &'a str)
    ensures
        r@ == without_prefix(text@, prefix@),
{
    let t = chars_of(text);
    let p = chars_of(prefix);
    if matches_at(&t, &p, 0) {
        text.substring_char(p.len(), t.len())
    } else {
        text
    }
}

/// `text` without `suffix` at its end, or all of `text` where it does not end with it.
pub fn strip_suffix<'a>(text: &'a str, suffix: &str) -> (r: &'a str)
    ensures
        r@ == without_suffix(text@, suffix@),
{
    let t = chars_of(text);
    let s = chars_of(suffix);
    if s.len() <= t.len() && matches_at(&t, &s, t.len() - s.len()) {
        text.substring_char(0, t.len() - s.len())
    } else {
        text
    }
}

/// `a` followed by `b`.
pub fn appended(a: &str, b: &str) -> (r: String)
    ensures
        r@ == a@ + b@,
{
    let mut out = String::from_str(a);
    out.append(b);
    out
}

/// `text` with its leftmost occurrence of `pattern` exchanged for `with`.
pub fn replace_first(text: &str, pattern: &str, with: &str) -> (r: String)
    ensures
        r@ == replaced_first(text@, pattern@, with@),
{
    let t = chars_of(text);
    let p = chars_of(pattern);
    match find_first(&t, &p) {
        None => String::from_str(text),
        Some(i) => {
            proof {
                lemma_first_occurrence_is(text@, pattern@, i as int);
                assert(i + p.len() <= t.len() <= usize::MAX);
            }
            let head = text.substring_char(0, i);
            let tail = text.substring_char(i + p.len(), t.len());
            let mut out = String::from_str(head);
            out.append(with);
            out.append(tail);
            out
        },
    }
}

} // verus!
