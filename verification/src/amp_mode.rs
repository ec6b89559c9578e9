//! The mode that an Amp configuration file asks for.

use crate::text::{
    chars_eq_str, chars_of, chars_split_by, chars_start_with_str, chars_to_ascii_lowercase,
    chars_trim_of, class_of, slice_chars, split_by, starts_with, string_of,
    to_ascii_lowercase, trim, trim_chars, trim_of, trim_start, trim_start_index, views,
    whitespace_and, CharSet,
};
use vstd::prelude::*;

verus! {

/// The lines of `contents`, as the pieces between line feeds.
pub open spec fn config_lines(contents: Seq<char>) -> Seq<Seq<char>> {
    split_by(contents, class_of("\n"@))
}

/// What follows the key `key` and one of the signs `signs` at the
/// beginning of `lowered`, trimmed; white space may stand before the sign.
pub open spec fn value_after(lowered: Seq<char>, key: Seq<char>, signs: Seq<char>) -> Option<
    Seq<char>,
> {
    if !starts_with(lowered, key) {
        None
    } else {
        let rest = trim_start(lowered.skip(key.len() as int));
        if rest.len() > 0 && signs.contains(rest[0]) {
            Some(trim(rest.skip(1)))
        } else {
            None
        }
    }
}

/// The raw value of the mode setting on a line in lower case: behind
/// `mode` and a colon or an equals sign, or behind `"mode"` and a colon.
pub open spec fn raw_mode_value(lowered: Seq<char>) -> Option<Seq<char>> {
    if starts_with(lowered, "mode"@) {
        value_after(lowered, "mode"@, ":="@)
    } else {
        value_after(lowered, "\"mode\""@, ":"@)
    }
}

/// The word that a raw value begins with: without double and then single
/// quotes at its ends, up to the first white space, comma or hash, trimmed.
pub open spec fn first_word(value: Seq<char>) -> Seq<char> {
    let bare = trim_of(trim_of(value, class_of("\""@)), class_of("'"@));
    trim(split_by(bare, whitespace_and(",#"@))[0])
}

/// The mode that one line sets, if it sets one: the line is no comment,
/// and the word behind its mode key is `smart` or `rush`.
pub open spec fn line_mode(raw_line: Seq<char>) -> Option<Seq<char>> {
    let line = trim(raw_line);
    if line.len() == 0 || starts_with(line, "#"@) || starts_with(line, "//"@) {
        None
    } else {
        match raw_mode_value(to_ascii_lowercase(line)) {
            None => None,
            Some(value) => {
                let word = first_word(value);
                if word == "smart"@ || word == "rush"@ {
                    Some(word)
                } else {
                    None
                }
            },
        }
    }
}

/// The mode that the first of `lines` to set one sets.
pub open spec fn first_mode(lines: Seq<Seq<char>>) -> Option<Seq<char>>
    decreases lines.len(),
{
    if lines.len() == 0 {
        None
    } else {
        match line_mode(lines[0]) {
            Some(mode) => Some(mode),
            None => first_mode(lines.drop_first()),
        }
    }
}

/// The mode that the configuration text `contents` asks for.
pub open spec fn amp_mode(contents: Seq<char>) -> Option<Seq<char>> {
    first_mode(config_lines(contents))
}

fn value_behind(lowered: &Vec<char>, key: &str, signs: &str) -> (r: Option<Vec<char>>)
    ensures
        match r {
            Some(value) => value_after(lowered@, key@, signs@) == Some(value@),
            None => value_after(lowered@, key@, signs@) is None,
        },
{
    if !chars_start_with_str(lowered, key) {
        return None;
    }
    let n = key.unicode_len();
    let at = trim_start_index(lowered, n, lowered.len());
    if at >= lowered.len() {
        return None;
    }
    let set = CharSet::of(signs);
    if !set.contains(lowered[at]) {
        return None;
    }
    let behind = slice_chars(lowered, at + 1, lowered.len());
    assert(behind@ =~= lowered@.subrange(at as int, lowered@.len() as int).skip(1));
    Some(trim_chars(&behind))
}

fn mode_of_line(raw_line: &Vec<char>) -> (r: Option<Vec<char>>)
    ensures
        match r {
            Some(mode) => line_mode(raw_line@) == Some(mode@),
            None => line_mode(raw_line@) is None,
        },
{
    let line = trim_chars(raw_line);
    if line.len() == 0 || chars_start_with_str(&line, "#") || chars_start_with_str(&line, "//") {
        return None;
    }
    let lowered = chars_to_ascii_lowercase(&line);
    let raw = if chars_start_with_str(&lowered, "mode") {
        value_behind(&lowered, "mode", ":=")
    } else {
        value_behind(&lowered, "\"mode\"", ":")
    };
    let value = match raw {
        Some(value) => value,
        None => {
            return None;
        },
    };
    let double = CharSet::of("\"");
    let single = CharSet::of("'");
    let bare = chars_trim_of(&chars_trim_of(&value, &double), &single);
    let enders = CharSet::whitespace_and(",#");
    let pieces = chars_split_by(&bare, &enders);
    assert(views(pieces@)[0] == pieces@[0]@);
    let word = trim_chars(&pieces[0]);
    if chars_eq_str(&word, "smart") || chars_eq_str(&word, "rush") {
        Some(word)
    } else {
        None
    }
}

pub fn parse_amp_mode_from_config_text(contents: &str) -> (mode: Option<String>)
    ensures
        match mode {
            Some(mode) => amp_mode(contents@) == Some(mode@),
            None => amp_mode(contents@) is None,
        },
{
    let chars = chars_of(contents);
    let newline = CharSet::of("\n");
    let lines = chars_split_by(&chars, &newline);
    let ghost all = views(lines@);
    let mut i: usize = 0;
    assert(all.skip(0) =~= all);
    while i < lines.len()
        invariant
            i <= lines.len(),
            all == views(lines@),
            all == config_lines(contents@),
            first_mode(all.skip(i as int)) == first_mode(all),
        decreases lines.len() - i,
    {
        assert(all.skip(i as int)[0] == lines@[i as int]@);
        assert(all.skip(i as int).drop_first() =~= all.skip(i as int + 1));
        if let Some(mode) = mode_of_line(&lines[i]) {
            return Some(string_of(&mode));
        }
        i = i + 1;
    }
    None
}


/// The largest configuration file that is read, in bytes.
pub const MAX_AMP_CONFIG_BYTES: u64 = 2097152;

/// The names of the files that may hold the configuration, in the order
/// in which they are tried.
pub open spec fn config_candidates() -> Seq<Seq<char>> {
    seq![
        "config.toml"@,
        "config.yaml"@,
        "config.yml"@,
        "config.json"@,
        "amp.toml"@,
        "amp.yaml"@,
        "amp.yml"@,
        "amp.json"@,
        "settings.toml"@,
        "settings.yaml"@,
        "settings.yml"@,
        "settings.json"@,
    ]
}

pub fn amp_config_candidates() -> (names: Vec<&'static str>)
    ensures
        names@.len() == config_candidates().len(),
        forall|i: int| 0 <= i < names@.len() ==> (#[trigger] names@[i])@ == config_candidates()[i],
{
    let mut names: Vec<&'static str> = Vec::new();
    names.push("config.toml");
    names.push("config.yaml");
    names.push("config.yml");
    names.push("config.json");
    names.push("amp.toml");
    names.push("amp.yaml");
    names.push("amp.yml");
    names.push("amp.json");
    names.push("settings.toml");
    names.push("settings.yaml");
    names.push("settings.yml");
    names.push("settings.json");
    names
}

/// Whether a candidate is read: it is a file of at most
/// `MAX_AMP_CONFIG_BYTES` bytes.
pub fn is_readable_config(is_file: bool, byte_len: u64) -> (r: bool)
    ensures
        r == (is_file && byte_len <= MAX_AMP_CONFIG_BYTES),
{
    is_file && byte_len <= MAX_AMP_CONFIG_BYTES
}

/// The mode that the first of the files to ask for one asks for, where
/// `files` holds the text of each candidate that was read.
pub open spec fn detected_mode(files: Seq<Option<String>>) -> Option<Seq<char>>
    decreases files.len(),
{
    if files.len() == 0 {
        None
    } else {
        match files[0] {
            Some(contents) if amp_mode(contents@) is Some => amp_mode(contents@),
            _ => detected_mode(files.drop_first()),
        }
    }
}

/// Decides the mode from what was read of the candidates under a
/// configuration root, in the order of `amp_config_candidates`: for each
/// the text of the file, or none where it was passed over or not readable.
pub fn detect_amp_mode_from_config_root(files: &Vec<Option<String>>) -> (mode: Option<String>)
    ensures
        match mode {
            Some(mode) => detected_mode(files@) == Some(mode@),
            None => detected_mode(files@) is None,
        },
{
    let mut i: usize = 0;
    assert(files@.skip(0) =~= files@);
    while i < files.len()
        invariant
            i <= files.len(),
            detected_mode(files@.skip(i as int)) == detected_mode(files@),
        decreases files.len() - i,
    {
        assert(files@.skip(i as int).drop_first() =~= files@.skip(i as int + 1));
        if let Some(contents) = &files[i] {
            if let Some(mode) = parse_amp_mode_from_config_text(contents.as_str()) {
                return Some(mode);
            }
        }
        i = i + 1;
    }
    None
}

} // verus!
