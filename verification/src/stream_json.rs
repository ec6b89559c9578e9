//! Small decisions on the JSON events that an agent streams.

use crate::text::{chars_of, chars_to_ascii_lowercase, string_of, to_ascii_lowercase, trim, trim_chars};
use vstd::prelude::*;

verus! {

/// The key under which a tool is known: its name trimmed and in lower case.
pub fn tool_name_key(name: &str) -> (key: String)
    ensures
        key@ == to_ascii_lowercase(trim(name@)),
{
    let chars = chars_of(name);
    string_of(&chars_to_ascii_lowercase(&trim_chars(&chars)))
}

/// The first of `fields` that is a text and not blank, trimmed.
pub open spec fn first_text(fields: Seq<Option<String>>) -> Option<Seq<char>>
    decreases fields.len(),
{
    if fields.len() == 0 {
        None
    } else {
        match fields[0] {
            Some(text) if trim(text@).len() > 0 => Some(trim(text@)),
            _ => first_text(fields.drop_first()),
        }
    }
}

/// Picks the value of the first of several keys of an object that holds a
/// text that is not blank. `fields` holds, for each key in turn, the text
/// that the object has under it, or none where it has no text there.
pub fn extract_string_field(fields: &Vec<Option<String>>) -> (r: Option<String>)
    ensures
        match r {
            Some(text) => first_text(fields@) == Some(text@),
            None => first_text(fields@) is None,
        },
{
    let mut i: usize = 0;
    assert(fields@.skip(0) =~= fields@);
    while i < fields.len()
        invariant
            i <= fields.len(),
            first_text(fields@.skip(i as int)) == first_text(fields@),
        decreases fields.len() - i,
    {
        assert(fields@.skip(i as int).drop_first() =~= fields@.skip(i as int + 1));
        if let Some(text) = &fields[i] {
            let chars = chars_of(text.as_str());
            let trimmed = trim_chars(&chars);
            if trimmed.len() > 0 {
                return Some(string_of(&trimmed));
            }
        }
        i = i + 1;
    }
    None
}

} // verus!
