//! Branch names that the tool makes for its workspaces.

use crate::text::{
    ascii_lower, char_is_ascii_alphanumeric, char_to_ascii_lowercase, chars_of,
    chars_start_with_str, chars_trim_of, class_of, is_ascii_alphanumeric, slice_chars,
    starts_with, string_of, trim, trim_chars, trim_of, CharSet,
};
use vstd::prelude::*;

verus! {

/// The longest suffix, in characters.
pub const MAX_SUFFIX_LEN: usize = 24;

/// `s` without `prefix` at its beginning, if it begins with it.
pub open spec fn without_prefix(s: Seq<char>, prefix: Seq<char>) -> Seq<char> {
    if starts_with(s, prefix) {
        s.skip(prefix.len() as int)
    } else {
        s
    }
}

/// `c` as it stands in a branch name: an ASCII letter or digit in lower
/// case, a hyphen for anything else.
pub open spec fn branch_char(c: char) -> char {
    if is_ascii_alphanumeric(c) {
        ascii_lower(c)
    } else {
        '-'
    }
}

/// `s` with every character made a branch character and every run of
/// hyphens made one hyphen.
pub open spec fn sanitized(s: Seq<char>) -> Seq<char>
    decreases s.len(),
{
    if s.len() == 0 {
        s
    } else {
        let front = sanitized(s.drop_last());
        let next = branch_char(s.last());
        if next == '-' && front.len() > 0 && front.last() == '-' {
            front
        } else {
            front.push(next)
        }
    }
}

/// `s` cut after `MAX_SUFFIX_LEN` characters.
pub open spec fn limited(s: Seq<char>) -> Seq<char> {
    if s.len() <= MAX_SUFFIX_LEN {
        s
    } else {
        s.take(MAX_SUFFIX_LEN as int)
    }
}

/// The branch suffix that `raw` gives: trimmed, without `refs/heads/` and
/// then `luban/` in front, sanitized, without hyphens at the ends, cut to
/// the limit and again without hyphens at the ends. None where nothing is
/// left.
pub open spec fn branch_suffix(raw: Seq<char>) -> Option<Seq<char>> {
    let name = trim(raw);
    if name.len() == 0 {
        None
    } else {
        let value = without_prefix(without_prefix(name, "refs/heads/"@), "luban/"@);
        let clean = trim_of(sanitized(value), class_of("-"@));
        if clean.len() == 0 {
            None
        } else {
            let cut = trim_of(limited(clean), class_of("-"@));
            if cut.len() == 0 {
                None
            } else {
                Some(cut)
            }
        }
    }
}

fn strip_prefix(v: Vec<char>, prefix: &str) -> (out: Vec<char>)
    ensures
        out@ == without_prefix(v@, prefix@),
{
    if chars_start_with_str(&v, prefix) {
        let n = prefix.unicode_len();
        slice_chars(&v, n, v.len())
    } else {
        v
    }
}

fn sanitize(v: &Vec<char>) -> (out: Vec<char>)
    ensures
        out@ == sanitized(v@),
{
    let mut out: Vec<char> = Vec::new();
    let mut prev_hyphen = false;
    let mut i: usize = 0;
    assert(v@.take(0) =~= Seq::<char>::empty());
    while i < v.len()
        invariant
            i <= v.len(),
            out@ == sanitized(v@.take(i as int)),
            prev_hyphen == (out@.len() > 0 && out@.last() == '-'),
        decreases v.len() - i,
    {
        let c = v[i];
        assert(v@.take(i as int + 1).drop_last() =~= v@.take(i as int));
        let next = if char_is_ascii_alphanumeric(c) {
            char_to_ascii_lowercase(c)
        } else {
            '-'
        };
        if next == '-' {
            if !prev_hyphen {
                prev_hyphen = true;
                out.push('-');
            }
        } else {
            prev_hyphen = false;
            out.push(next);
        }
        i = i + 1;
    }
    assert(v@.take(i as int) =~= v@);
    out
}

pub fn normalize_branch_suffix(raw: &str) -> (suffix: Option<String>)
    ensures
        match suffix {
            Some(text) => branch_suffix(raw@) == Some(text@),
            None => branch_suffix(raw@) is None,
        },
{
    let chars = chars_of(raw);
    let name = trim_chars(&chars);
    if name.len() == 0 {
        return None;
    }
    let value = strip_prefix(strip_prefix(name, "refs/heads/"), "luban/");
    let hyphen = CharSet::of("-");
    let clean = chars_trim_of(&sanitize(&value), &hyphen);
    if clean.len() == 0 {
        return None;
    }
    let kept = if clean.len() <= MAX_SUFFIX_LEN {
        clean
    } else {
        slice_chars(&clean, 0, MAX_SUFFIX_LEN)
    };
    let cut = chars_trim_of(&kept, &hyphen);
    if cut.len() == 0 {
        return None;
    }
    Some(string_of(&cut))
}

} // verus!
