//! The title of a conversation thread, taken from its first message.

use crate::text::{chars_first_index_from, chars_of, first_index, slice_chars, string_of, trim, trim_bounds};
use vstd::prelude::*;

verus! {

/// The longest title, in characters.
pub const THREAD_TITLE_MAX_CHARS: usize = 40;

/// The first line of `text`: what stands before its first line feed.
pub open spec fn first_line(text: Seq<char>) -> Seq<char> {
    match first_index(text, '\n') {
        Some(end) => text.take(end),
        None => text,
    }
}

/// The title that `text` gives: its first line, trimmed, and cut after
/// `THREAD_TITLE_MAX_CHARS` characters.
pub open spec fn thread_title(text: Seq<char>) -> Seq<char> {
    let line = trim(first_line(text));
    if line.len() <= THREAD_TITLE_MAX_CHARS {
        line
    } else {
        line.take(THREAD_TITLE_MAX_CHARS as int)
    }
}

pub fn derive_thread_title(text: &str) -> (title: String)
    ensures
        title@ == thread_title(text@),
        title@.len() <= THREAD_TITLE_MAX_CHARS,
{
    let chars = chars_of(text);
    let end = match chars_first_index_from(&chars, '\n', 0) {
        Some(at) => at,
        None => chars.len(),
    };
    assert(chars@.subrange(0, end as int) == first_line(text@)) by {
        assert(chars@.subrange(0, chars@.len() as int) =~= chars@);
    }
    let (lo, hi) = trim_bounds(&chars, 0, end);
    let cut = if hi - lo <= THREAD_TITLE_MAX_CHARS {
        hi
    } else {
        lo + THREAD_TITLE_MAX_CHARS
    };
    let title = slice_chars(&chars, lo, cut);
    assert(title@ =~= thread_title(text@)) by {
        let line = chars@.subrange(lo as int, hi as int);
        assert(line.take(cut - lo) =~= chars@.subrange(lo as int, cut as int));
        assert(line.take(line.len() as int) =~= line);
    }
    string_of(&title)
}

} // verus!
