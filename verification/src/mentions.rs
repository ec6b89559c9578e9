//! Searching the files of a workspace by a few typed letters.

use crate::text::{chars_of, string_of};
use vstd::prelude::*;

verus! {

/// Whether `c` has a meaning of its own in a glob pattern.
pub open spec fn is_glob_special(c: char) -> bool {
    c == '*' || c == '?' || c == '[' || c == ']' || c == '{' || c == '}' || c == '!'
}

/// `c` as it stands for itself in a glob pattern: behind a backslash, if
/// it is special.
pub open spec fn escaped_char(c: char) -> Seq<char> {
    if is_glob_special(c) {
        seq!['\\', c]
    } else {
        seq![c]
    }
}

/// `fragment` with every special character escaped.
pub open spec fn escaped(fragment: Seq<char>) -> Seq<char>
    decreases fragment.len(),
{
    if fragment.len() == 0 {
        fragment
    } else {
        escaped(fragment.drop_last()) + escaped_char(fragment.last())
    }
}

fn char_is_glob_special(c: char) -> (r: bool)
    ensures
        r == is_glob_special(c),
{
    c == '*' || c == '?' || c == '[' || c == ']' || c == '{' || c == '}' || c == '!'
}

fn push_escaped(out: &mut Vec<char>, c: char)
    ensures
        final(out)@ == old(out)@ + escaped_char(c),
{
    if char_is_glob_special(c) {
        out.push('\\');
        out.push(c);
        assert(out@ =~= old(out)@ + seq!['\\', c]);
    } else {
        out.push(c);
        assert(out@ =~= old(out)@ + seq![c]);
    }
}

pub fn escape_glob_fragment(fragment: &str) -> (out: String)
    ensures
        out@ == escaped(fragment@),
{
    let chars = chars_of(fragment);
    let mut out: Vec<char> = Vec::new();
    let mut i: usize = 0;
    assert(chars@.take(0) =~= Seq::<char>::empty());
    while i < chars.len()
        invariant
            i <= chars.len(),
            out@ == escaped(chars@.take(i as int)),
        decreases chars.len() - i,
    {
        assert(chars@.take(i as int + 1).drop_last() =~= chars@.take(i as int));
        push_escaped(&mut out, chars[i]);
        i = i + 1;
    }
    assert(chars@.take(i as int) =~= chars@);
    string_of(&out)
}

pub open spec fn glob_head() -> Seq<char> {
    "**/*"@
}

/// The letters of `query`, each escaped and followed by a star.
pub open spec fn starred(query: Seq<char>) -> Seq<char>
    decreases query.len(),
{
    if query.len() == 0 {
        query
    } else {
        starred(query.drop_last()) + escaped_char(query.last()) + seq!['*']
    }
}

/// The glob pattern that matches, at any depth, the names that hold the
/// letters of `query` in order.
pub open spec fn fuzzy_glob(query: Seq<char>) -> Seq<char> {
    glob_head() + starred(query)
}

pub fn fuzzy_glob_pattern(query: &str) -> (out: String)
    ensures
        out@ == fuzzy_glob(query@),
{
    let chars = chars_of(query);
    let mut out: Vec<char> = chars_of("**/*");
    let mut i: usize = 0;
    assert(chars@.take(0) =~= Seq::<char>::empty());
    assert(out@ =~= glob_head() + starred(chars@.take(0)));
    while i < chars.len()
        invariant
            i <= chars.len(),
            out@ == glob_head() + starred(chars@.take(i as int)),
        decreases chars.len() - i,
    {
        assert(chars@.take(i as int + 1).drop_last() =~= chars@.take(i as int));
        let ghost before = out@;
        push_escaped(&mut out, chars[i]);
        out.push('*');
        assert(out@ =~= glob_head() + starred(chars@.take(i as int + 1))) by {
            assert(out@ =~= before + escaped_char(chars@[i as int]) + seq!['*']);
        }
        i = i + 1;
    }
    assert(chars@.take(i as int) =~= chars@);
    string_of(&out)
}

/// `b` with an ASCII upper-case letter replaced by its lower-case form.
pub open spec fn byte_lower(b: u8) -> u8 {
    if 0x41 <= b && b <= 0x5a {
        (b + 32) as u8
    } else {
        b
    }
}

fn byte_to_ascii_lowercase(b: u8) -> (r: u8)
    ensures
        r == byte_lower(b),
{
    if 0x41 <= b && b <= 0x5a {
        b + 32
    } else {
        b
    }
}

/// Whether the bytes of `needle` from `n` on occur in `haystack` from `h`
/// on, in order and not necessarily side by side, where the bytes of
/// `haystack` count in lower case.
pub open spec fn fuzzy_matches_from(needle: Seq<u8>, n: int, haystack: Seq<u8>, h: int) -> bool
    decreases haystack.len() - h,
{
    if n < 0 || h < 0 {
        false
    } else if n >= needle.len() {
        true
    } else if h >= haystack.len() {
        false
    } else if byte_lower(haystack[h]) == needle[n] {
        fuzzy_matches_from(needle, n + 1, haystack, h + 1)
    } else {
        fuzzy_matches_from(needle, n, haystack, h + 1)
    }
}

/// Whether `needle_lower` occurs in `haystack` as a subsequence, without
/// regard to the case of the ASCII letters of `haystack`.
pub open spec fn fuzzy_matches(needle_lower: Seq<u8>, haystack: Seq<u8>) -> bool {
    fuzzy_matches_from(needle_lower, 0, haystack, 0)
}

pub fn fuzzy_match_ascii(needle_lower: &[u8], haystack: &[u8]) -> (r: bool)
    ensures
        r == fuzzy_matches(needle_lower@, haystack@),
        r == is_subsequence(needle_lower@, haystack@),
{
    proof {
        lemma_fuzzy_matches_is_subsequence(needle_lower@, haystack@);
    }
    if needle_lower.len() == 0 {
        return true;
    }
    let mut hi: usize = 0;
    let mut ni: usize = 0;
    while ni < needle_lower.len()
        invariant
            ni <= needle_lower.len(),
            hi <= haystack.len(),
            fuzzy_matches(needle_lower@, haystack@) <==> is_subsequence(needle_lower@, haystack@),
            fuzzy_matches_from(needle_lower@, ni as int, haystack@, hi as int) == fuzzy_matches(
                needle_lower@,
                haystack@,
            ),
        decreases needle_lower.len() - ni,
    {
        let b = needle_lower[ni];
        while hi < haystack.len() && byte_to_ascii_lowercase(haystack[hi]) != b
            invariant
                ni < needle_lower.len(),
                b == needle_lower@[ni as int],
                hi <= haystack.len(),
                fuzzy_matches(needle_lower@, haystack@) <==> is_subsequence(
                    needle_lower@,
                    haystack@,
                ),
                fuzzy_matches_from(needle_lower@, ni as int, haystack@, hi as int)
                    == fuzzy_matches(needle_lower@, haystack@),
            decreases haystack.len() - hi,
        {
            hi = hi + 1;
        }
        if hi == haystack.len() {
            return false;
        }
        hi = hi + 1;
        ni = ni + 1;
    }
    true
}


/// Whether `at` picks, for each byte of `needle` from `n` on, a place in
/// `haystack` at or after `h` that holds it, with the places rising.
pub open spec fn embeds_from(needle: Seq<u8>, n: int, haystack: Seq<u8>, h: int, at: Seq<int>)
    -> bool {
    &&& at.len() == needle.len() - n
    &&& forall|k: int|
        0 <= k < at.len() ==> h <= #[trigger] at[k] < haystack.len() && byte_lower(
            haystack[at[k]],
        ) == needle[n + k]
    &&& forall|j: int, k: int| 0 <= j < k < at.len() ==> at[j] < at[k]
}

/// Whether `needle` occurs in `haystack` as a subsequence, the bytes of
/// `haystack` counting in lower case.
pub open spec fn is_subsequence(needle: Seq<u8>, haystack: Seq<u8>) -> bool {
    exists|at: Seq<int>| embeds_from(needle, 0, haystack, 0, at)
}

proof fn lemma_match_finds_embedding(needle: Seq<u8>, n: int, haystack: Seq<u8>, h: int) -> (at:
    Seq<int>)
    requires
        0 <= n <= needle.len(),
        0 <= h,
        fuzzy_matches_from(needle, n, haystack, h),
    ensures
        embeds_from(needle, n, haystack, h, at),
    decreases haystack.len() - h,
{
    if n >= needle.len() {
        Seq::empty()
    } else if byte_lower(haystack[h]) == needle[n] {
        let rest = lemma_match_finds_embedding(needle, n + 1, haystack, h + 1);
        let at = seq![h] + rest;
        assert forall|k: int| 0 <= k < at.len() implies h <= #[trigger] at[k] < haystack.len()
            && byte_lower(haystack[at[k]]) == needle[n + k] by {
            if k > 0 {
                assert(at[k] == rest[k - 1]);
            }
        }
        assert forall|j: int, k: int| 0 <= j < k < at.len() implies at[j] < at[k] by {
            assert(at[k] == rest[k - 1]);
            if j > 0 {
                assert(at[j] == rest[j - 1]);
            }
        }
        at
    } else {
        lemma_match_finds_embedding(needle, n, haystack, h + 1)
    }
}

proof fn lemma_embedding_is_matched(
    needle: Seq<u8>,
    n: int,
    haystack: Seq<u8>,
    h: int,
    at: Seq<int>,
)
    requires
        0 <= n <= needle.len(),
        0 <= h,
        embeds_from(needle, n, haystack, h, at),
    ensures
        fuzzy_matches_from(needle, n, haystack, h),
    decreases haystack.len() - h,
{
    if n < needle.len() {
        assert(h <= at[0] < haystack.len());
        if byte_lower(haystack[h]) == needle[n] {
            let rest = at.drop_first();
            assert forall|k: int| 0 <= k < rest.len() implies h + 1 <= #[trigger] rest[k]
                < haystack.len() && byte_lower(haystack[rest[k]]) == needle[n + 1 + k] by {
                assert(rest[k] == at[k + 1]);
                assert(at[0] < at[k + 1]);
            }
            assert forall|j: int, k: int| 0 <= j < k < rest.len() implies rest[j] < rest[k] by {
                assert(rest[j] == at[j + 1] && rest[k] == at[k + 1]);
            }
            lemma_embedding_is_matched(needle, n + 1, haystack, h + 1, rest);
        } else {
            assert forall|k: int| 0 <= k < at.len() implies h + 1 <= #[trigger] at[k] by {
                if k > 0 {
                    assert(at[0] < at[k]);
                }
            }
            lemma_embedding_is_matched(needle, n, haystack, h + 1, at);
        }
    }
}

/// The match is exactly the subsequence relation: the letters of the
/// needle are found in the haystack in their order, at rising places.
pub proof fn lemma_fuzzy_matches_is_subsequence(needle: Seq<u8>, haystack: Seq<u8>)
    ensures
        fuzzy_matches(needle, haystack) <==> is_subsequence(needle, haystack),
{
    if fuzzy_matches(needle, haystack) {
        let at = lemma_match_finds_embedding(needle, 0, haystack, 0);
        assert(embeds_from(needle, 0, haystack, 0, at));
    }
    if is_subsequence(needle, haystack) {
        let at = choose|at: Seq<int>| embeds_from(needle, 0, haystack, 0, at);
        lemma_embedding_is_matched(needle, 0, haystack, 0, at);
    }
}

} // verus!
