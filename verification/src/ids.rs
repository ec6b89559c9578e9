//! Numeric identifiers of projects, workspaces and workspace threads.

use vstd::prelude::*;

verus! {

/// Identifier of a project.
#[derive(Clone, Copy, Debug, PartialEq, Eq, Hash, Structural)]
pub struct ProjectId(pub u64);

impl ProjectId {
    pub fn as_u64(self) -> (id: u64)
        ensures
            id == self.0,
    {
        self.0
    }

    pub fn from_u64(id: u64) -> (out: Self)
        ensures
            out == ProjectId(id),
    {
        Self(id)
    }
}

/// Identifier of a workspace (one git worktree of a project).
#[derive(Clone, Copy, Debug, PartialEq, Eq, Hash, Structural)]
pub struct WorkspaceId(pub u64);

impl WorkspaceId {
    pub fn as_u64(self) -> (id: u64)
        ensures
            id == self.0,
    {
        self.0
    }

    pub fn from_u64(id: u64) -> (out: Self)
        ensures
            out == WorkspaceId(id),
    {
        Self(id)
    }
}

/// Identifier of a conversation thread inside a workspace; tasks are threads.
#[derive(Clone, Copy, Debug, PartialEq, Eq, Hash, Structural)]
pub struct WorkspaceThreadId(pub u64);

impl WorkspaceThreadId {
    pub fn as_u64(self) -> (id: u64)
        ensures
            id == self.0,
    {
        self.0
    }

    pub fn from_u64(id: u64) -> (out: Self)
        ensures
            out == WorkspaceThreadId(id),
    {
        Self(id)
    }
}

} // verus!
