//! Splitting a pattern at a marker, and cutting the pattern's fixed text off a value.

use crate::text::{
    chars_of, find_first, first_occurrence, lemma_first_occurrence_exists,
    lemma_first_occurrence_is, occurs, occurs_at, replaced_first, strip_prefix, strip_suffix,
    without_prefix, without_suffix,
};
use vstd::prelude::*;
use vstd::string::*;

verus! {

/// The marker that stands for a version in every pattern.
pub const VERSION: &'static str = "{version}";

/// What a `TokenTrimmer` holds, as sequences of characters.
pub struct Trimmer {
    pub before: Seq<char>,
    pub after: Seq<char>,
}

/// The text that stands before a marker in a pattern, and the text that stands after it.
#[derive(Debug, PartialEq)]
pub struct TokenTrimmer<'a> {
    pub before_token: &'a str,
    pub after_token: &'a str,
}

impl<'a> View for TokenTrimmer<'a> {
    type V = Trimmer;

    open spec fn view(&self) -> Trimmer {
        Trimmer { before: self.before_token@, after: self.after_token@ }
    }
}

/// The trimmer that a pattern gives for a marker: none where the marker is
/// empty, is the whole pattern, or does not occur in it; else the pattern
/// split at the marker's leftmost occurrence.
pub open spec fn trimmer_for(pattern: Seq<char>, token: Seq<char>) -> Option<Trimmer> {
    if token.len() == 0 || pattern == token || !occurs(pattern, token) {
        None
    } else {
        let i = first_occurrence(pattern, token);
        Some(
            Trimmer {
                before: pattern.subrange(0, i),
                after: pattern.subrange(i + token.len(), pattern.len() as int),
            },
        )
    }
}

/// `value` with the trimmer's leading text cut off its start, then its
/// trailing text cut off its end; a side that `value` does not show stays.
pub open spec fn trimmed(trimmer: Trimmer, value: Seq<char>) -> Seq<char> {
    without_suffix(without_prefix(value, trimmer.before), trimmer.after)
}

/// `trimmed` where there is a trimmer, `value` unchanged where there is none.
pub open spec fn trimmed_by(trimmer: Option<Trimmer>, value: Seq<char>) -> Seq<char> {
    match trimmer {
        Some(t) => trimmed(t, value),
        None => value,
    }
}

/// `token` stands in `pattern` at one position and no other.
pub open spec fn occurs_once(pattern: Seq<char>, token: Seq<char>) -> bool {
    exists|i: int|
        occurs_at(pattern, token, i) && forall|j: int|
            occurs_at(pattern, token, j) ==> j == i
}

impl<'a> TokenTrimmer<'a> {
    /// Splits `text` at the leftmost occurrence of `token`.
    pub fn new<'b>(text: &'b str, token: &str) -> (r: Option<TokenTrimmer<'b>>)
        ensures
            r is None <==> token@.len() == 0 || text@ == token@ || !occurs(text@, token@),
            match r {
                Some(t) => trimmer_for(text@, token@) == Some(t@),
                None => trimmer_for(text@, token@) is None,
            },
    {
        let t = chars_of(text);
        let k = chars_of(token);
        if k.len() == 0 {
            return None;
        }
        match find_first(&t, &k) {
            None => None,
            Some(i) => {
                proof {
                    lemma_first_occurrence_is(text@, token@, i as int);
                }
                if t.len() == k.len() {
                    proof {
                        assert(t@.subrange(0, t@.len() as int) =~= t@);
                    }
                    return None;
                }
                Some(
                    TokenTrimmer {
                        before_token: text.substring_char(0, i),
                        after_token: text.substring_char(i + k.len(), t.len()),
                    },
                )
            },
        }
    }

    /// Cuts this trimmer's leading and trailing text off `text`.
    pub fn trim_text<'b>(&self, text: &'b str) -> (r: &'b str)
        ensures
            r@ == trimmed(self@, text@),
    {
        let without_prefix = strip_prefix(text, self.before_token);
        strip_suffix(without_prefix, self.after_token)
    }
}

/// A value that stands in a pattern in the marker's place is what trimming gives back.
///
/// Where the marker occurs in the pattern once and is not the whole of it, the
/// pattern has a trimmer, and that trimmer, applied to the pattern with any
/// value put in the marker's place, returns the value.
pub proof fn lemma_trim_restores_value(pattern: Seq<char>, token: Seq<char>, value: Seq<char>)
    requires
        occurs_once(pattern, token),
        pattern != token,
    ensures
        trimmer_for(pattern, token) is Some,
        trimmed_by(trimmer_for(pattern, token), replaced_first(pattern, token, value)) == value,
{
    let at = choose|i: int|
        occurs_at(pattern, token, i) && forall|j: int| occurs_at(pattern, token, j) ==> j == i;
    if token.len() == 0 {
        // An empty marker stands at every position, so the pattern is empty too.
        assert(pattern.subrange(0, 0) =~= token);
        assert(occurs_at(pattern, token, 0));
        if pattern.len() > 0 {
            assert(pattern.subrange(1, 1) =~= token);
            assert(occurs_at(pattern, token, 1));
        }
        assert(pattern =~= token);
    }
    lemma_first_occurrence_exists(pattern, token);
    let i = first_occurrence(pattern, token);
    let before = pattern.subrange(0, i);
    let after = pattern.subrange(i + token.len(), pattern.len() as int);
    let whole = before + value + after;
    assert(whole.subrange(0, before.len() as int) =~= before);
    let rest = whole.subrange(before.len() as int, whole.len() as int);
    assert(rest.subrange(rest.len() - after.len(), rest.len() as int) =~= after);
}

} // verus!
