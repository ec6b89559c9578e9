//! Terminal output without its control sequences.

use crate::text::{char_is_ascii_alphabetic, chars_of, is_ascii_alphabetic, string_of};
use vstd::prelude::*;

verus! {

/// The escape character, which begins a control sequence.
pub const ESCAPE: char = '\u{1b}';

/// The first index at or after `from` at which `s` holds an ASCII letter.
pub open spec fn first_letter_from(s: Seq<char>, from: int) -> Option<int>
    decreases s.len() - from,
{
    if from < 0 || from >= s.len() {
        None
    } else if is_ascii_alphabetic(s[from]) {
        Some(from)
    } else {
        first_letter_from(s, from + 1)
    }
}

/// What `first_letter_from` finds lies at or after `from`.
pub proof fn lemma_first_letter_from(s: Seq<char>, from: int)
    requires
        0 <= from,
    ensures
        match first_letter_from(s, from) {
            Some(at) => from <= at < s.len() && is_ascii_alphabetic(s[at]),
            None => true,
        },
    decreases s.len() - from,
{
    if from < s.len() && !is_ascii_alphabetic(s[from]) {
        lemma_first_letter_from(s, from + 1);
    }
}

/// `s` from `from` on, without control sequences. An escape followed by
/// `[` begins a sequence that runs up to the next ASCII letter, or to the
/// end where there is none; any other escape goes with the one character
/// behind it.
pub open spec fn stripped_from(s: Seq<char>, from: int) -> Seq<char>
    decreases s.len() - from,
{
    if from < 0 || from >= s.len() {
        Seq::empty()
    } else if s[from] != ESCAPE {
        seq![s[from]] + stripped_from(s, from + 1)
    } else if from + 1 < s.len() && s[from + 1] == '[' {
        match first_letter_from(s, from + 2) {
            Some(end) => {
                proof {
                    lemma_first_letter_from(s, from + 2);
                }
                stripped_from(s, end + 1)
            },
            None => Seq::empty(),
        }
    } else if from + 1 < s.len() {
        stripped_from(s, from + 2)
    } else {
        Seq::empty()
    }
}

/// `s` without control sequences.
pub open spec fn stripped(s: Seq<char>) -> Seq<char> {
    stripped_from(s, 0)
}

pub fn strip_ansi_control_sequences(input: &str) -> (out: String)
    ensures
        out@ == stripped(input@),
{
    let chars = chars_of(input);
    let mut out: Vec<char> = Vec::new();
    let mut i: usize = 0;
    assert(out@ + stripped_from(chars@, 0) =~= stripped(input@));
    while i < chars.len()
        invariant
            chars@ == input@,
            out@ + stripped_from(chars@, i as int) == stripped(input@),
        decreases chars.len() - i,
    {
        let ch = chars[i];
        if ch != ESCAPE {
            let ghost before = out@;
            out.push(ch);
            assert(out@ + stripped_from(chars@, i as int + 1) =~= before + stripped_from(
                chars@,
                i as int,
            ));
            i = i + 1;
            continue ;
        }
        if i + 1 < chars.len() && chars[i + 1] == '[' {
            let mut j: usize = i + 2;
            while j < chars.len() && !char_is_ascii_alphabetic(chars[j])
                invariant
                    i + 2 <= j,
                    first_letter_from(chars@, j as int) == first_letter_from(chars@, i as int + 2),
                decreases chars.len() - j,
            {
                j = j + 1;
            }
            if j >= chars.len() {
                assert(out@ + Seq::<char>::empty() =~= out@);
                i = chars.len();
            } else {
                i = j + 1;
            }
            continue ;
        }
        if i + 1 < chars.len() {
            i = i + 2;
        } else {
            i = chars.len();
        }
    }
    assert(out@ + Seq::<char>::empty() =~= out@);
    string_of(&out)
}

} // verus!
