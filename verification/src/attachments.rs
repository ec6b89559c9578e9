//! Files attached to a prompt.

use vstd::prelude::*;

verus! {

#[derive(Clone, Copy, Debug, PartialEq, Eq, Structural)]
pub enum AttachmentKind {
    Image,
    Text,
    File,
}

#[derive(Clone, Debug, PartialEq, Eq)]
pub struct AttachmentRef {
    pub id: String,
    pub kind: AttachmentKind,
    pub name: String,
    pub extension: String,
    pub mime: Option<String>,
    pub byte_len: u64,
}

#[derive(Clone, Debug, PartialEq, Eq)]
pub struct ContextItem {
    pub id: u64,
    pub attachment: AttachmentRef,
    pub created_at_unix_ms: u64,
}

/// The name of the file that keeps the bytes of `attachment`: its id, a dot
/// and its extension.
pub open spec fn blob_file_name(attachment: AttachmentRef) -> Seq<char> {
    attachment.id@ + seq!['.'] + attachment.extension@
}

pub fn stored_blob_file_name(attachment: &AttachmentRef) -> (name: String)
    ensures
        name@ == blob_file_name(*attachment),
{
    let mut name = attachment.id.clone();
    name.append(".");
    proof {
        reveal_strlit(".");
        assert("."@ =~= seq!['.']);
    }
    name.append(attachment.extension.as_str());
    name
}

} // verus!
