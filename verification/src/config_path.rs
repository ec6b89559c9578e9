//! Relative paths that a client names inside a configuration directory.

use crate::text::{
    chars_eq_str, chars_first_index_from, chars_of, chars_split_by, class_of, first_index,
    split_by, string_of, texts, trim, trim_chars, views, CharSet,
};
use vstd::prelude::*;

verus! {

/// Why a path was refused.
#[derive(Clone, Copy, Debug, PartialEq, Eq, Structural)]
pub enum PathError {
    /// The path begins with a slash.
    NotRelative,
    /// The path holds a backslash.
    Separator,
    /// A segment is empty, `.` or `..`.
    Segment,
    /// The path is blank where a file is asked for.
    Empty,
}

impl PathError {
    pub open spec fn message(self) -> Seq<char> {
        match self {
            PathError::NotRelative => "path must be relative"@,
            PathError::Separator => "invalid path separator"@,
            PathError::Segment => "invalid path segment"@,
            PathError::Empty => "path is empty"@,
        }
    }

    /// The error in words.
    pub fn to_string(&self) -> (text: String)
        ensures
            text@ == self.message(),
    {
        match self {
            PathError::NotRelative => "path must be relative".to_owned(),
            PathError::Separator => "invalid path separator".to_owned(),
            PathError::Segment => "invalid path segment".to_owned(),
            PathError::Empty => "path is empty".to_owned(),
        }
    }
}

/// A relative path, as the list of its segments. The empty list is the
/// directory itself.
#[derive(Clone, Debug, PartialEq, Eq)]
pub struct RelativePath {
    pub segments: Vec<String>,
}

impl View for RelativePath {
    type V = Seq<Seq<char>>;

    open spec fn view(&self) -> Seq<Seq<char>> {
        texts(self.segments@)
    }
}

/// Whether `segment` names the directory itself or its parent.
pub open spec fn is_dot_segment(segment: Seq<char>) -> bool {
    segment == "."@ || segment == ".."@
}

/// Whether every one of `segments` is a name: not empty, and neither `.`
/// nor `..`.
pub open spec fn all_names(segments: Seq<Seq<char>>) -> bool {
    forall|i: int|
        0 <= i < segments.len() ==> (#[trigger] segments[i]).len() > 0 && !is_dot_segment(
            segments[i],
        )
}

/// Why the trimmed path `rel` is refused before its segments are looked
/// at, if it is.
pub open spec fn shape_error(rel: Seq<char>) -> Option<PathError> {
    if rel.len() > 0 && rel[0] == '/' {
        Some(PathError::NotRelative)
    } else if first_index(rel, '\\') is Some {
        Some(PathError::Separator)
    } else {
        None
    }
}

/// The segments of `rel` between slashes.
pub open spec fn segments_of(rel: Seq<char>) -> Seq<Seq<char>> {
    split_by(rel, class_of("/"@))
}

/// The segments of `pieces` that are kept: all but the empty ones where
/// `lenient`, all otherwise.
pub open spec fn kept_segments(pieces: Seq<Seq<char>>, lenient: bool) -> Seq<Seq<char>>
    decreases pieces.len(),
{
    if pieces.len() == 0 {
        pieces
    } else if lenient && pieces.last().len() == 0 {
        kept_segments(pieces.drop_last(), lenient)
    } else {
        kept_segments(pieces.drop_last(), lenient).push(pieces.last())
    }
}

/// Whether a segment is refused: `.` and `..` always, an empty one unless
/// `lenient`.
pub open spec fn bad_segment(segment: Seq<char>, lenient: bool) -> bool {
    is_dot_segment(segment) || (!lenient && segment.len() == 0)
}

pub open spec fn any_bad_segment(pieces: Seq<Seq<char>>, lenient: bool) -> bool {
    exists|i: int| 0 <= i < pieces.len() && bad_segment(#[trigger] pieces[i], lenient)
}

/// What a directory path parses to. The path is trimmed; it must not begin
/// with a slash nor hold a backslash; no segment may be `.` or `..`. Where
/// `lenient`, empty segments are dropped; otherwise they are refused, but
/// for the blank path, which is the directory itself.
pub open spec fn parsed_dir_path(path: Seq<char>, lenient: bool) -> Result<
    Seq<Seq<char>>,
    PathError,
> {
    let rel = trim(path);
    match shape_error(rel) {
        Some(error) => Err(error),
        None => if !lenient && rel.len() == 0 {
            Ok(Seq::empty())
        } else if any_bad_segment(segments_of(rel), lenient) {
            Err(PathError::Segment)
        } else {
            Ok(kept_segments(segments_of(rel), lenient))
        },
    }
}

/// What a file path parses to: as a directory path under the strict
/// rules, but the blank path is refused.
pub open spec fn parsed_file_path(path: Seq<char>) -> Result<Seq<Seq<char>>, PathError> {
    if trim(path).len() == 0 {
        Err(PathError::Empty)
    } else {
        parsed_dir_path(path, false)
    }
}

fn parse_dir_path(path: &str, lenient: bool) -> (r: Result<RelativePath, PathError>)
    ensures
        match r {
            Ok(rel) => parsed_dir_path(path@, lenient) == Ok::<Seq<Seq<char>>, PathError>(rel@),
            Err(error) => parsed_dir_path(path@, lenient) == Err::<Seq<Seq<char>>, PathError>(
                error,
            ),
        },
        r is Ok ==> all_names(r->Ok_0@),
{
    proof {
        if parsed_dir_path(path@, lenient) is Ok {
            lemma_accepted_segments_are_names(path@, lenient);
        }
    }
    let chars = chars_of(path);
    let rel = trim_chars(&chars);
    if rel.len() > 0 && rel[0] == '/' {
        return Err(PathError::NotRelative);
    }
    if chars_first_index_from(&rel, '\\', 0).is_some() {
        return Err(PathError::Separator);
    }
    let mut segments: Vec<String> = Vec::new();
    if !lenient && rel.len() == 0 {
        assert(texts(segments@) =~= Seq::<Seq<char>>::empty());
        return Ok(RelativePath { segments });
    }
    let slash = CharSet::of("/");
    let pieces = chars_split_by(&rel, &slash);
    let ghost all = views(pieces@);
    let mut i: usize = 0;
    assert(all.take(0) =~= Seq::<Seq<char>>::empty());
    assert(texts(segments@) =~= Seq::<Seq<char>>::empty());
    while i < pieces.len()
        invariant
            i <= pieces.len(),
            all == views(pieces@),
            all == segments_of(trim(path@)),
            shape_error(trim(path@)) is None,
            lenient || trim(path@).len() > 0,
            !any_bad_segment(all.take(i as int), lenient),
            texts(segments@) == kept_segments(all.take(i as int), lenient),
        decreases pieces.len() - i,
    {
        let piece = &pieces[i];
        assert(all[i as int] == piece@);
        assert(all.take(i as int + 1).drop_last() =~= all.take(i as int));
        let empty = piece.len() == 0;
        if chars_eq_str(piece, ".") || chars_eq_str(piece, "..") || (empty && !lenient) {
            assert(bad_segment(all[i as int], lenient));
            return Err(PathError::Segment);
        }
        if !empty {
            let ghost before = texts(segments@);
            segments.push(string_of(piece));
            assert(texts(segments@) =~= before.push(piece@));
        }
        assert(!any_bad_segment(all.take(i as int + 1), lenient)) by {
            if any_bad_segment(all.take(i as int + 1), lenient) {
                let j = choose|j: int|
                    0 <= j < all.take(i as int + 1).len() && bad_segment(
                        #[trigger] all.take(i as int + 1)[j],
                        lenient,
                    );
                if j < i {
                    assert(bad_segment(all.take(i as int)[j], lenient));
                }
            }
        }
        i = i + 1;
    }
    assert(all.take(i as int) =~= all);
    Ok(RelativePath { segments })
}

/// Parses the path of a directory to list; every segment must be a name.
pub fn parse_strict_relative_list_dir_path(path: &str) -> (r: Result<RelativePath, PathError>)
    ensures
        match r {
            Ok(rel) => parsed_dir_path(path@, false) == Ok::<Seq<Seq<char>>, PathError>(rel@),
            Err(error) => parsed_dir_path(path@, false) == Err::<Seq<Seq<char>>, PathError>(error),
        },
        r is Ok ==> all_names(r->Ok_0@),
{
    parse_dir_path(path, false)
}

/// Parses the path of a directory to list; empty segments are passed over.
pub fn parse_lenient_relative_list_dir_path(path: &str) -> (r: Result<RelativePath, PathError>)
    ensures
        match r {
            Ok(rel) => parsed_dir_path(path@, true) == Ok::<Seq<Seq<char>>, PathError>(rel@),
            Err(error) => parsed_dir_path(path@, true) == Err::<Seq<Seq<char>>, PathError>(error),
        },
        r is Ok ==> all_names(r->Ok_0@),
{
    parse_dir_path(path, true)
}

/// Parses the path of a file; it must not be blank.
pub fn parse_strict_relative_file_path(path: &str) -> (r: Result<RelativePath, PathError>)
    ensures
        match r {
            Ok(rel) => parsed_file_path(path@) == Ok::<Seq<Seq<char>>, PathError>(rel@),
            Err(error) => parsed_file_path(path@) == Err::<Seq<Seq<char>>, PathError>(error),
        },
        r is Ok ==> all_names(r->Ok_0@) && r->Ok_0@.len() > 0,
{
    let chars = chars_of(path);
    let rel = trim_chars(&chars);
    if rel.len() == 0 {
        return Err(PathError::Empty);
    }
    parse_dir_path(path, false)
}

/// What is accepted holds no segment that is empty, `.` or `..`.
proof fn lemma_accepted_segments_are_names(path: Seq<char>, lenient: bool)
    requires
        parsed_dir_path(path, lenient) is Ok,
    ensures
        all_names(parsed_dir_path(path, lenient)->Ok_0),
{
    let rel = trim(path);
    if !(!lenient && rel.len() == 0) {
        lemma_kept_segments_are_names(segments_of(rel), lenient);
    }
}

proof fn lemma_kept_segments_are_names(pieces: Seq<Seq<char>>, lenient: bool)
    requires
        !any_bad_segment(pieces, lenient),
    ensures
        forall|i: int|
            0 <= i < kept_segments(pieces, lenient).len() ==> {
                let segment = #[trigger] kept_segments(pieces, lenient)[i];
                segment.len() > 0 && !is_dot_segment(segment)
            },
    decreases pieces.len(),
{
    if pieces.len() > 0 {
        let front = pieces.drop_last();
        assert(!any_bad_segment(front, lenient)) by {
            if any_bad_segment(front, lenient) {
                let j = choose|j: int| 0 <= j < front.len() && bad_segment(#[trigger] front[j], lenient);
                assert(bad_segment(pieces[j], lenient));
            }
        }
        lemma_kept_segments_are_names(front, lenient);
        assert(!bad_segment(pieces[pieces.len() - 1], lenient));
        let kept = kept_segments(pieces, lenient);
        assert forall|i: int| 0 <= i < kept.len() implies (#[trigger] kept[i]).len() > 0
            && !is_dot_segment(kept[i]) by {
            if i < kept_segments(front, lenient).len() {
                assert(kept[i] == kept_segments(front, lenient)[i]);
            } else {
                assert(kept[i] == pieces.last());
            }
        }
    }
}

} // verus!
