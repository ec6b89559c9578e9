//! Notices of an agent that say no more than that it is reconnecting.

use crate::text::{
    char_is_ascii_digit, chars_find_from, chars_of, chars_to_ascii_lowercase, find,
    is_ascii_digit, to_ascii_lowercase, trim, trim_chars,
};
use vstd::prelude::*;

verus! {

/// Whether `text` holds a count of attempts at `at`: a digit, a slash and a
/// digit.
pub open spec fn fraction_at(text: Seq<char>, at: int) -> bool {
    &&& 0 <= at
    &&& at + 2 < text.len()
    &&& is_ascii_digit(text[at])
    &&& text[at + 1] == '/'
    &&& is_ascii_digit(text[at + 2])
}

/// Whether `text` holds a count of attempts such as `2/5` anywhere.
pub open spec fn has_attempt_fraction(text: Seq<char>) -> bool {
    exists|at: int| fraction_at(text, at)
}

fn chars_contain_attempt_fraction(text: &Vec<char>) -> (r: bool)
    ensures
        r == has_attempt_fraction(text@),
{
    if text.len() < 3 {
        return false;
    }
    let mut i: usize = 0;
    while i < text.len() - 2
        invariant
            text.len() >= 3,
            i <= text.len() - 2,
            forall|j: int| 0 <= j < i ==> !fraction_at(text@, j),
        decreases text.len() - i,
    {
        if char_is_ascii_digit(text[i]) && text[i + 1] == '/' && char_is_ascii_digit(text[i + 2]) {
            assert(fraction_at(text@, i as int));
            return true;
        }
        i = i + 1;
    }
    false
}

pub fn contains_attempt_fraction(text: &str) -> (r: bool)
    ensures
        r == has_attempt_fraction(text@),
{
    let chars = chars_of(text);
    chars_contain_attempt_fraction(&chars)
}

/// Whether `message` is a passing notice of a reconnect: once trimmed and
/// in lower case it holds the word `reconnecting` and a count of attempts.
pub open spec fn transient_reconnect_notice(message: Seq<char>) -> bool {
    let lower = to_ascii_lowercase(trim(message));
    &&& lower.len() > 0
    &&& find(lower, "reconnecting"@) is Some
    &&& has_attempt_fraction(lower)
}

pub fn is_transient_reconnect_notice(message: &str) -> (r: bool)
    ensures
        r == transient_reconnect_notice(message@),
{
    let chars = chars_of(message);
    let trimmed = trim_chars(&chars);
    if trimmed.len() == 0 {
        return false;
    }
    let lower = chars_to_ascii_lowercase(&trimmed);
    let word = chars_of("reconnecting");
    if chars_find_from(&lower, &word, 0).is_none() {
        return false;
    }
    chars_contain_attempt_fraction(&lower)
}

} // verus!
