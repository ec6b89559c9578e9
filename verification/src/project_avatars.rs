//! GitHub owners of projects, whose avatars stand for the projects.

use crate::hashing::{blake3_hex, content_hash};
use crate::text::{
    char_is_ascii_alphanumeric, chars_of, chars_split_by, chars_start_with, chars_trim_end_of,
    class_of, is_ascii_alphanumeric, keep_nonempty, nonempty_pieces, opt_view, slice_chars,
    split_by, starts_with, string_of, trim, trim_chars, trim_end_of, utf8_len, utf8_len_at_most,
    CharSet,
};
use vstd::prelude::*;

verus! {

/// The longest owner name that is taken for one, in bytes.
pub const MAX_OWNER_LEN: usize = 128;

/// Whether `c` may stand in the name of an owner.
pub open spec fn is_owner_char(c: char) -> bool {
    is_ascii_alphanumeric(c) || c == '-' || c == '_'
}

/// Whether `owner`, once trimmed, can be the name of a GitHub owner: not
/// empty, at most `MAX_OWNER_LEN` bytes, and made of ASCII letters, digits,
/// hyphens and underscores.
pub open spec fn valid_github_owner(owner: Seq<char>) -> bool {
    let name = trim(owner);
    &&& name.len() > 0
    &&& utf8_len(name) <= MAX_OWNER_LEN
    &&& forall|i: int| 0 <= i < name.len() ==> is_owner_char(#[trigger] name[i])
}

fn owner_is_valid(owner: &Vec<char>) -> (r: bool)
    ensures
        r == valid_github_owner(owner@),
{
    let name = trim_chars(owner);
    if name.len() == 0 || !utf8_len_at_most(&name, MAX_OWNER_LEN) {
        return false;
    }
    let mut i: usize = 0;
    while i < name.len()
        invariant
            i <= name.len(),
            name@ == trim(owner@),
            name@.len() > 0,
            utf8_len(name@) <= MAX_OWNER_LEN,
            forall|j: int| 0 <= j < i ==> is_owner_char(#[trigger] name@[j]),
        decreases name.len() - i,
    {
        let c = name[i];
        if !(char_is_ascii_alphanumeric(c) || c == '-' || c == '_') {
            assert(!is_owner_char(name@[i as int]));
            return false;
        }
        i = i + 1;
    }
    true
}

pub fn is_valid_github_owner(owner: &str) -> (r: bool)
    ensures
        r == valid_github_owner(owner@),
{
    let chars = chars_of(owner);
    owner_is_valid(&chars)
}

pub open spec fn github_prefix() -> Seq<char> {
    "github.com/"@
}

/// The owner that the repository id `github.com/<owner>/<repo>` names. The
/// id is trimmed, slashes at its end do not count, and empty segments are
/// passed over; the owner must be a valid one.
pub open spec fn github_owner(repo_id: Seq<char>) -> Option<Seq<char>> {
    let id = trim_end_of(trim(repo_id), class_of("/"@));
    if !starts_with(id, github_prefix()) {
        None
    } else {
        let parts = nonempty_pieces(split_by(id.skip(github_prefix().len() as int), class_of("/"@)));
        if parts.len() >= 2 && valid_github_owner(parts[0]) {
            Some(parts[0])
        } else {
            None
        }
    }
}

pub fn github_owner_from_repo_id(repo_id: &str) -> (owner: Option<String>)
    ensures
        match owner {
            Some(name) => github_owner(repo_id@) == Some(name@),
            None => github_owner(repo_id@) is None,
        },
{
    let slash = CharSet::of("/");
    let chars = chars_of(repo_id);
    let trimmed = trim_chars(&chars);
    let id = chars_trim_end_of(&trimmed, &slash);
    let prefix = chars_of("github.com/");
    if !chars_start_with(&id, &prefix) {
        return None;
    }
    let rest = slice_chars(&id, prefix.len(), id.len());
    let parts = keep_nonempty(chars_split_by(&rest, &slash));
    if parts.len() < 2 {
        return None;
    }
    assert(crate::text::views(parts@)[0] == parts@[0]@);
    if !owner_is_valid(&parts[0]) {
        return None;
    }
    Some(string_of(&parts[0]))
}


/// Where avatars are fetched from, unless the environment says otherwise.
pub const DEFAULT_GITHUB_AVATAR_BASE_URL: &'static str = "https://github.com";

/// How long a cached avatar counts as fresh, in seconds: seven days.
pub const DEFAULT_CACHE_TTL_SECS: u64 = 604800;

/// The largest avatar that is taken, in bytes.
pub const MAX_AVATAR_BYTES: u64 = 2097152;

/// The base URL that the setting `value` gives: the value trimmed and
/// without slashes at its end, or the default where that is empty or
/// nothing is set.
pub open spec fn avatar_base_url(value: Option<Seq<char>>) -> Seq<char> {
    match value {
        Some(value) => {
            let base = trim_end_of(trim(value), class_of("/"@));
            if base.len() > 0 {
                base
            } else {
                DEFAULT_GITHUB_AVATAR_BASE_URL@
            }
        },
        None => DEFAULT_GITHUB_AVATAR_BASE_URL@,
    }
}

pub fn github_avatar_base_url(value: Option<&str>) -> (base: String)
    ensures
        base@ == avatar_base_url(opt_view(value)),
{
    match value {
        Some(value) => {
            let chars = chars_of(value);
            let slash = CharSet::of("/");
            let base = chars_trim_end_of(&trim_chars(&chars), &slash);
            if base.len() > 0 {
                string_of(&base)
            } else {
                DEFAULT_GITHUB_AVATAR_BASE_URL.to_owned()
            }
        },
        None => DEFAULT_GITHUB_AVATAR_BASE_URL.to_owned(),
    }
}

/// The address of the avatar of `owner` below `base`, at 64 pixels.
pub open spec fn avatar_url(base: Seq<char>, owner: Seq<char>) -> Seq<char> {
    base + "/"@ + owner + ".png?size=64"@
}

/// The address to fetch the avatar of `owner` from; none for a name that
/// cannot be an owner's.
pub fn github_owner_avatar_url(base: &str, owner: &str) -> (url: Option<String>)
    ensures
        match url {
            Some(url) => valid_github_owner(owner@) && url@ == avatar_url(base@, owner@),
            None => !valid_github_owner(owner@),
        },
{
    if !is_valid_github_owner(owner) {
        return None;
    }
    let mut url = base.to_owned();
    url.append("/");
    url.append(owner);
    url.append(".png?size=64");
    Some(url)
}

/// The name of the file that caches the avatar of `owner`: the hash of the
/// name, and `.png`.
pub fn cache_file_name_for_owner(owner: &str) -> (name: String)
    ensures
        name@ == blake3_hex(vstd::utf8::encode_utf8(owner@)) + ".png"@,
{
    let mut name = content_hash(owner.as_bytes());
    name.append(".png");
    name
}

/// Whether a cached avatar of the given age is fresh: it is not older
/// than `DEFAULT_CACHE_TTL_SECS`.
pub fn cached_avatar_is_fresh(age_secs: u64, age_subsec_nanos: u32) -> (fresh: bool)
    ensures
        fresh == (age_secs < DEFAULT_CACHE_TTL_SECS || (age_secs == DEFAULT_CACHE_TTL_SECS
            && age_subsec_nanos == 0)),
{
    age_secs < DEFAULT_CACHE_TTL_SECS || (age_secs == DEFAULT_CACHE_TTL_SECS && age_subsec_nanos
        == 0)
}

/// What to do with the answer to an avatar request, before its body is
/// read.
#[derive(Clone, Copy, Debug, PartialEq, Eq, Structural)]
pub enum AvatarResponse {
    /// The owner has no avatar.
    NotFound,
    /// The request failed, with this status.
    BadStatus(u16),
    /// The avatar is announced with more than `MAX_AVATAR_BYTES` bytes.
    TooLarge(u64),
    /// The body is to be read.
    ReadBody,
}

pub open spec fn avatar_response(status: u16, content_length: Option<u64>) -> AvatarResponse {
    if status == 404 {
        AvatarResponse::NotFound
    } else if !(200 <= status && status < 300) {
        AvatarResponse::BadStatus(status)
    } else {
        match content_length {
            Some(len) if len > MAX_AVATAR_BYTES => AvatarResponse::TooLarge(len),
            _ => AvatarResponse::ReadBody,
        }
    }
}

pub fn classify_avatar_response(status: u16, content_length: Option<u64>) -> (r: AvatarResponse)
    ensures
        r == avatar_response(status, content_length),
{
    if status == 404 {
        return AvatarResponse::NotFound;
    }
    if !(200 <= status && status < 300) {
        return AvatarResponse::BadStatus(status);
    }
    if let Some(len) = content_length {
        if len > MAX_AVATAR_BYTES {
            return AvatarResponse::TooLarge(len);
        }
    }
    AvatarResponse::ReadBody
}

/// Whether a body of `byte_len` bytes is small enough to be an avatar.
pub fn avatar_body_fits(byte_len: usize) -> (fits: bool)
    ensures
        fits == (byte_len <= MAX_AVATAR_BYTES),
{
    byte_len as u64 <= MAX_AVATAR_BYTES
}

} // verus!
