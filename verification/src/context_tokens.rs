//! Context tokens: the marks `<<context:KIND:PATH>>>` by which a message
//! refers to an attached file.

use crate::text::{
    char_len_utf8, chars_find_from, chars_first_index_from, chars_of, eq_ignore_ascii_case,
    eq_ignore_ascii_case_str, find_from, first_index_from, lemma_find_from,
    lemma_first_index_from, lemma_utf8_len_grows, slice_chars, str_utf8_len, string_of, texts, trim,
    trim_bounds,
    trim_chars, utf8_len,
};
use std::ops::Range;
use vstd::prelude::*;

verus! {

/// `Clone::clone` of `std::ops::Range`, which the derived `Clone` of
/// `ContextToken` calls. Nothing is claimed of the copy.
pub assume_specification<Idx: Clone>[ <Range<Idx> as Clone>::clone ](range: &Range<Idx>) -> (copy:
    Range<Idx>)
;

#[derive(Clone, Copy, Debug, PartialEq, Eq, Structural)]
pub enum ContextTokenKind {
    Image,
    Text,
    File,
}

impl ContextTokenKind {
    pub open spec fn name(self) -> Seq<char> {
        match self {
            ContextTokenKind::Image => "image"@,
            ContextTokenKind::Text => "text"@,
            ContextTokenKind::File => "file"@,
        }
    }

    /// The kind that `raw` names, once trimmed and without regard to case.
    pub open spec fn named(raw: Seq<char>) -> Option<ContextTokenKind> {
        let name = trim(raw);
        if eq_ignore_ascii_case(name, "image"@) {
            Some(ContextTokenKind::Image)
        } else if eq_ignore_ascii_case(name, "text"@) {
            Some(ContextTokenKind::Text)
        } else if eq_ignore_ascii_case(name, "file"@) {
            Some(ContextTokenKind::File)
        } else {
            None
        }
    }

    pub fn parse(raw: &Vec<char>) -> (kind: Option<Self>)
        ensures
            kind == Self::named(raw@),
    {
        let name = trim_chars(raw);
        if eq_ignore_ascii_case_str(&name, "image") {
            return Some(ContextTokenKind::Image);
        }
        if eq_ignore_ascii_case_str(&name, "text") {
            return Some(ContextTokenKind::Text);
        }
        if eq_ignore_ascii_case_str(&name, "file") {
            return Some(ContextTokenKind::File);
        }
        None
    }

    pub fn as_str(self) -> (name: &'static str)
        ensures
            name@ == self.name(),
    {
        match self {
            ContextTokenKind::Image => "image",
            ContextTokenKind::Text => "text",
            ContextTokenKind::File => "file",
        }
    }
}

/// A context token of a text: its kind, the path it names, and the bytes
/// of the text that it covers.
#[derive(Clone, Debug, PartialEq, Eq)]
pub struct ContextToken {
    pub kind: ContextTokenKind,
    pub path: String,
    pub range: Range<usize>,
}

/// A context token, placed by the characters of the text that it covers.
pub struct TokenSpan {
    pub kind: ContextTokenKind,
    pub path: Seq<char>,
    pub start: int,
    pub end: int,
}

pub open spec fn token_prefix() -> Seq<char> {
    "<<context:"@
}

pub open spec fn token_suffix() -> Seq<char> {
    ">>>"@
}

/// The tokens of `text` from the character `cursor` on. A token begins at
/// the next `<<context:`; its kind runs up to the next colon; its path runs
/// up to the next `>>>` and is trimmed. A mark with an unknown kind or a
/// blank path is passed over, and the search goes on behind what was read
/// of it.
pub open spec fn tokens_from(text: Seq<char>, cursor: int) -> Seq<TokenSpan>
    decreases text.len() - cursor,
{
    if cursor < 0 || token_prefix().len() == 0 || token_suffix().len() == 0 {
        Seq::empty()
    } else {
        match find_from(text, token_prefix(), cursor) {
            None => Seq::empty(),
            Some(start) => {
                proof {
                    lemma_find_from(text, token_prefix(), cursor);
                }
                let after_prefix = start + token_prefix().len();
                match first_index_from(text, ':', after_prefix) {
                    None => tokens_from(text, after_prefix),
                    Some(kind_end) => {
                        proof {
                            lemma_first_index_from(text, ':', after_prefix);
                        }
                        let path_start = kind_end + 1;
                        match ContextTokenKind::named(text.subrange(after_prefix, kind_end)) {
                            None => tokens_from(text, path_start),
                            Some(kind) => match find_from(text, token_suffix(), path_start) {
                                None => tokens_from(text, path_start),
                                Some(path_end) => {
                                    proof {
                                        lemma_find_from(text, token_suffix(), path_start);
                                    }
                                    let end = path_end + token_suffix().len();
                                    let path = trim(text.subrange(path_start, path_end));
                                    if path.len() == 0 {
                                        tokens_from(text, end)
                                    } else {
                                        seq![TokenSpan { kind, path, start, end }] + tokens_from(
                                            text,
                                            end,
                                        )
                                    }
                                },
                            },
                        }
                    },
                }
            },
        }
    }
}

/// The tokens of `text`, in the order in which they stand.
pub open spec fn tokens_of(text: Seq<char>) -> Seq<TokenSpan> {
    tokens_from(text, 0)
}

/// Whether `token` is `span` with its place counted in bytes of `text`.
pub open spec fn token_matches(token: ContextToken, span: TokenSpan, text: Seq<char>) -> bool {
    &&& token.kind == span.kind
    &&& token.path@ == span.path
    &&& token.range.start == utf8_len(text.take(span.start))
    &&& token.range.end == utf8_len(text.take(span.end))
}

/// Whether `tokens` are `spans`, one for one.
pub open spec fn tokens_match(tokens: Seq<ContextToken>, spans: Seq<TokenSpan>, text: Seq<char>)
    -> bool {
    &&& tokens.len() == spans.len()
    &&& forall|i: int| 0 <= i < tokens.len() ==> token_matches(#[trigger] tokens[i], spans[i], text)
}

/// The byte offset of every character of `chars`, and of its end.
fn byte_offsets(chars: &Vec<char>) -> (offsets: Vec<usize>)
    requires
        utf8_len(chars@) <= usize::MAX,
    ensures
        offsets@.len() == chars@.len() + 1,
        forall|i: int| 0 <= i <= chars@.len() ==> offsets@[i] == utf8_len(chars@.take(i)),
{
    let mut offsets: Vec<usize> = Vec::new();
    let mut total: usize = 0;
    offsets.push(0);
    assert(chars@.take(0) =~= Seq::<char>::empty());
    let mut i: usize = 0;
    while i < chars.len()
        invariant
            i <= chars.len(),
            utf8_len(chars@) <= usize::MAX,
            offsets@.len() == i + 1,
            total == utf8_len(chars@.take(i as int)),
            forall|j: int| 0 <= j <= i ==> offsets@[j] == utf8_len(chars@.take(j)),
        decreases chars.len() - i,
    {
        let width = char_len_utf8(chars[i]);
        proof {
            assert(chars@.take(i as int + 1).drop_last() =~= chars@.take(i as int));
            lemma_utf8_len_grows(chars@, i as int + 1);
        }
        total = total + width;
        offsets.push(total);
        i = i + 1;
    }
    offsets
}

/// Finds the context tokens of `text`, in the order in which they stand.
pub fn find_context_tokens(text: &str) -> (tokens: Vec<ContextToken>)
    ensures
        tokens_match(tokens@, tokens_of(text@), text@),
{
    let _byte_len: usize = str_utf8_len(text);
    let chars = chars_of(text);
    let offsets = byte_offsets(&chars);
    let prefix = chars_of("<<context:");
    let suffix = chars_of(">>>");
    let mut tokens: Vec<ContextToken> = Vec::new();
    if prefix.len() == 0 || suffix.len() == 0 {
        return tokens;
    }
    let ghost mut found: Seq<TokenSpan> = Seq::empty();
    let mut cursor: usize = 0;
    loop
        invariant
            chars@ == text@,
            prefix@ == token_prefix(),
            suffix@ == token_suffix(),
            prefix@.len() > 0,
            suffix@.len() > 0,
            offsets@.len() == chars@.len() + 1,
            forall|i: int| 0 <= i <= chars@.len() ==> offsets@[i] == utf8_len(chars@.take(i)),
            tokens_match(tokens@, found, text@),
            found + tokens_from(text@, cursor as int) == tokens_of(text@),
        ensures
            tokens_match(tokens@, tokens_of(text@), text@),
        decreases chars@.len() + 1 - cursor,
    {
        if cursor > chars.len() {
            assert(tokens_from(text@, cursor as int) =~= Seq::<TokenSpan>::empty());
            assert(found + Seq::<TokenSpan>::empty() =~= found);
            break ;
        }
        let start = match chars_find_from(&chars, &prefix, cursor) {
            Some(at) => at,
            None => {
                assert(found + Seq::<TokenSpan>::empty() =~= found);
                break ;
            },
        };
        let after_prefix = start + prefix.len();
        let kind_end = match chars_first_index_from(&chars, ':', after_prefix) {
            Some(at) => at,
            None => {
                cursor = after_prefix;
                continue ;
            },
        };
        let path_start = kind_end + 1;
        let kind_text = slice_chars(&chars, after_prefix, kind_end);
        let kind = match ContextTokenKind::parse(&kind_text) {
            Some(kind) => kind,
            None => {
                cursor = path_start;
                continue ;
            },
        };
        let path_end = match chars_find_from(&chars, &suffix, path_start) {
            Some(at) => at,
            None => {
                cursor = path_start;
                continue ;
            },
        };
        let end = path_end + suffix.len();
        let (lo, hi) = trim_bounds(&chars, path_start, path_end);
        if lo == hi {
            cursor = end;
            continue ;
        }
        let path = slice_chars(&chars, lo, hi);
        let token = ContextToken {
            kind,
            path: string_of(&path),
            range: Range { start: offsets[start], end: offsets[end] },
        };
        proof {
            let span = TokenSpan { kind, path: path@, start: start as int, end: end as int };
            assert(tokens_from(text@, cursor as int) =~= seq![span] + tokens_from(
                text@,
                end as int,
            ));
            assert(found.push(span) + tokens_from(text@, end as int) =~= found + tokens_from(
                text@,
                cursor as int,
            ));
            found = found.push(span);
        }
        tokens.push(token);
        cursor = end;
    }
    tokens
}

/// The paths of the image tokens among `spans`, in order.
pub open spec fn image_paths(spans: Seq<TokenSpan>) -> Seq<Seq<char>>
    decreases spans.len(),
{
    if spans.len() == 0 {
        Seq::empty()
    } else if spans.last().kind == ContextTokenKind::Image {
        image_paths(spans.drop_last()).push(spans.last().path)
    } else {
        image_paths(spans.drop_last())
    }
}

/// The paths that the image tokens of `text` name, in the order in which
/// the tokens stand.
pub fn extract_context_image_paths_in_order(text: &str) -> (paths: Vec<String>)
    ensures
        texts(paths@) == image_paths(tokens_of(text@)),
{
    let tokens = find_context_tokens(text);
    let ghost spans = tokens_of(text@);
    let mut paths: Vec<String> = Vec::new();
    let mut i: usize = 0;
    assert(spans.take(0) =~= Seq::<TokenSpan>::empty());
    while i < tokens.len()
        invariant
            i <= tokens.len(),
            spans == tokens_of(text@),
            tokens_match(tokens@, spans, text@),
            texts(paths@) == image_paths(spans.take(i as int)),
        decreases tokens.len() - i,
    {
        assert(spans.take(i as int + 1).drop_last() =~= spans.take(i as int));
        assert(token_matches(tokens@[i as int], spans[i as int], text@));
        if tokens[i].kind == ContextTokenKind::Image {
            let ghost before = texts(paths@);
            paths.push(tokens[i].path.clone());
            assert(texts(paths@) =~= before.push(
                spans[i as int].path,
            ));
        }
        i = i + 1;
    }
    assert(spans.take(i as int) =~= spans);
    paths
}

} // verus!
