//! The task document watcher: what the loop that owns the file watch decides.
//!
//! Each task keeps its documents in a directory of its own under the watched
//! root: `<task_ulid>/TASK.md`, `PLAN.md`, `MEMORY.md`, and the identity
//! record `task.json`. The loop hands over what it saw on disk for each path
//! of a file system event; the watcher keeps the last fingerprint of every
//! document and the identity of every task, and answers with the documents
//! that changed for a workspace in the active set.

use crate::hashing::{blake3_hex, content_hash};
use crate::ids::{WorkspaceId, WorkspaceThreadId};
use crate::string_map::StringMap;
use crate::text::{
    chars_eq_ignore_ascii_case, chars_first_index_from, chars_of, chars_parse_u64,
    eq_ignore_ascii_case, eq_ignore_ascii_case_str, first_index, parse_u64, slice_chars,
    string_of, texts, trim, trim_chars,
};
use vstd::prelude::*;

verus! {

/// The documents that a task has.
#[derive(Clone, Copy, Debug, PartialEq, Eq, Hash, Structural)]
pub enum TaskDocumentKind {
    Task,
    Plan,
    Memory,
}

impl TaskDocumentKind {
    /// The name of the file that holds the document.
    pub open spec fn spec_file_name(self) -> Seq<char> {
        match self {
            TaskDocumentKind::Task => "TASK.md"@,
            TaskDocumentKind::Plan => "PLAN.md"@,
            TaskDocumentKind::Memory => "MEMORY.md"@,
        }
    }

    pub fn file_name(self) -> (name: &'static str)
        ensures
            name@ == self.spec_file_name(),
    {
        match self {
            TaskDocumentKind::Task => "TASK.md",
            TaskDocumentKind::Plan => "PLAN.md",
            TaskDocumentKind::Memory => "MEMORY.md",
        }
    }
}

/// What a file of a task directory is.
#[derive(Clone, Copy, Debug, PartialEq, Eq, Structural)]
pub enum TaskEventFile {
    Identity,
    Document(TaskDocumentKind),
}

/// The owner of a task's documents.
#[derive(Clone, Copy, Debug, PartialEq, Eq, Structural)]
pub struct TaskIdentity {
    pub workspace_id: WorkspaceId,
    pub task_id: WorkspaceThreadId,
}

/// What `task.json` holds.
#[derive(Clone, Debug)]
pub struct TaskIdentityRecord {
    pub task_ulid: String,
    pub workspace_id: u64,
    pub task_id: u64,
}

/// What reading `task.json` of a task gave.
#[derive(Clone, Debug)]
pub enum SidecarRead {
    /// The file could not be read as text.
    Unreadable,
    /// The file was read and is no identity record.
    Malformed,
    Record(TaskIdentityRecord),
}

/// One change to tell the outside: a document of a task changed.
#[derive(Clone, Copy, Debug, PartialEq, Eq, Structural)]
pub struct TaskDocumentObserved {
    pub workspace_id: WorkspaceId,
    pub thread_id: WorkspaceThreadId,
    pub kind: TaskDocumentKind,
}

// ---------------------------------------------------------------------------
// Identity
// ---------------------------------------------------------------------------

pub open spec fn fallback_prefix() -> Seq<char> {
    "task-"@
}

/// The identity that a task directory named `task-<workspace>-<task>` spells
/// out. The name is trimmed, the prefix is matched without regard to case,
/// and both numbers are read as `u64`.
pub open spec fn fallback_identity(task_ulid: Seq<char>) -> Option<TaskIdentity> {
    let name = trim(task_ulid);
    let prefix = fallback_prefix();
    if name.len() < prefix.len() || !eq_ignore_ascii_case(name.take(prefix.len() as int), prefix) {
        None
    } else {
        let rest = name.skip(prefix.len() as int);
        match first_index(rest, '-') {
            None => None,
            Some(dash) => match (parse_u64(rest.take(dash)), parse_u64(rest.skip(dash + 1))) {
                (Some(workspace), Some(task)) => Some(
                    TaskIdentity {
                        workspace_id: WorkspaceId(workspace),
                        task_id: WorkspaceThreadId(task),
                    },
                ),
                _ => None,
            },
        }
    }
}

pub fn parse_identity_from_fallback_ulid(task_ulid: &str) -> (r: Option<TaskIdentity>)
    ensures
        r == fallback_identity(task_ulid@),
{
    let raw = chars_of(task_ulid);
    let name = trim_chars(&raw);
    let prefix = chars_of("task-");
    if name.len() < prefix.len() {
        return None;
    }
    let head = slice_chars(&name, 0, prefix.len());
    if !chars_eq_ignore_ascii_case(&head, &prefix) {
        return None;
    }
    let rest = slice_chars(&name, prefix.len(), name.len());
    let dash = match chars_first_index_from(&rest, '-', 0) {
        Some(at) => at,
        None => {
            return None;
        },
    };
    let workspace_text = slice_chars(&rest, 0, dash);
    let task_text = slice_chars(&rest, dash + 1, rest.len());
    let workspace = match chars_parse_u64(&workspace_text) {
        Some(n) => n,
        None => {
            return None;
        },
    };
    let task = match chars_parse_u64(&task_text) {
        Some(n) => n,
        None => {
            return None;
        },
    };
    Some(
        TaskIdentity {
            workspace_id: WorkspaceId::from_u64(workspace),
            task_id: WorkspaceThreadId::from_u64(task),
        },
    )
}

/// The identity of the task `task_ulid` after a look at its `task.json`: the
/// record's, if it names the same task; the one that the directory name spells
/// out, if the file could not be read; none otherwise.
pub open spec fn sidecar_identity(task_ulid: Seq<char>, sidecar: SidecarRead) -> Option<
    TaskIdentity,
> {
    match sidecar {
        SidecarRead::Unreadable => fallback_identity(task_ulid),
        SidecarRead::Malformed => None,
        SidecarRead::Record(record) => if record.task_ulid@ == task_ulid {
            Some(
                TaskIdentity {
                    workspace_id: WorkspaceId(record.workspace_id),
                    task_id: WorkspaceThreadId(record.task_id),
                },
            )
        } else {
            None
        },
    }
}

pub fn read_task_identity(task_ulid: &String, sidecar: &SidecarRead) -> (r: Option<TaskIdentity>)
    ensures
        r == sidecar_identity(task_ulid@, *sidecar),
{
    match sidecar {
        SidecarRead::Unreadable => parse_identity_from_fallback_ulid(task_ulid.as_str()),
        SidecarRead::Malformed => None,
        SidecarRead::Record(record) => {
            if record.task_ulid != *task_ulid {
                return None;
            }
            Some(
                TaskIdentity {
                    workspace_id: WorkspaceId::from_u64(record.workspace_id),
                    task_id: WorkspaceThreadId::from_u64(record.task_id),
                },
            )
        },
    }
}

// ---------------------------------------------------------------------------
// Paths
// ---------------------------------------------------------------------------

/// What a file named `name` is in a task directory. The name is trimmed and
/// matched without regard to case.
pub open spec fn classify_file_name(name: Seq<char>) -> Option<TaskEventFile> {
    let name = trim(name);
    if eq_ignore_ascii_case(name, "task.json"@) {
        Some(TaskEventFile::Identity)
    } else if eq_ignore_ascii_case(name, "TASK.md"@) {
        Some(TaskEventFile::Document(TaskDocumentKind::Task))
    } else if eq_ignore_ascii_case(name, "PLAN.md"@) {
        Some(TaskEventFile::Document(TaskDocumentKind::Plan))
    } else if eq_ignore_ascii_case(name, "MEMORY.md"@) {
        Some(TaskEventFile::Document(TaskDocumentKind::Memory))
    } else {
        None
    }
}

/// The task and the file that a path under the watched root stands for,
/// where `components` are the path's components below the root, each as
/// text if it is text. Only `<task_ulid>/<file>` with a known file name
/// and a task name that is not blank stands for anything.
pub open spec fn classify_path(components: Seq<Option<String>>) -> Option<
    (Seq<char>, TaskEventFile),
> {
    if components.len() != 2 {
        None
    } else {
        match (components[0], components[1]) {
            (Some(task), Some(file)) => {
                if trim(task@).len() == 0 {
                    None
                } else {
                    match classify_file_name(file@) {
                        Some(event_file) => Some((trim(task@), event_file)),
                        None => None,
                    }
                }
            },
            _ => None,
        }
    }
}

fn file_of_name(name: &str) -> (r: Option<TaskEventFile>)
    ensures
        r == classify_file_name(name@),
{
    let raw = chars_of(name);
    let name = trim_chars(&raw);
    if eq_ignore_ascii_case_str(&name, "task.json") {
        return Some(TaskEventFile::Identity);
    }
    if eq_ignore_ascii_case_str(&name, "TASK.md") {
        return Some(TaskEventFile::Document(TaskDocumentKind::Task));
    }
    if eq_ignore_ascii_case_str(&name, "PLAN.md") {
        return Some(TaskEventFile::Document(TaskDocumentKind::Plan));
    }
    if eq_ignore_ascii_case_str(&name, "MEMORY.md") {
        return Some(TaskEventFile::Document(TaskDocumentKind::Memory));
    }
    None
}

/// Classifies a path by its components below the watched root.
pub fn resolve_task_event_path(components: &Vec<Option<String>>) -> (r: Option<
    (String, TaskEventFile),
>)
    ensures
        match r {
            Some((task_ulid, file)) => classify_path(components@) == Some((task_ulid@, file)),
            None => classify_path(components@) is None,
        },
{
    if components.len() != 2 {
        return None;
    }
    let task = match &components[0] {
        Some(text) => text,
        None => {
            return None;
        },
    };
    let file = match &components[1] {
        Some(text) => text,
        None => {
            return None;
        },
    };
    let raw = chars_of(task.as_str());
    let task_ulid = trim_chars(&raw);
    if task_ulid.len() == 0 {
        return None;
    }
    match file_of_name(file.as_str()) {
        Some(event_file) => Some((string_of(&task_ulid), event_file)),
        None => None,
    }
}


// ---------------------------------------------------------------------------
// Documents
// ---------------------------------------------------------------------------

/// What reading a document file gave: its bytes, the time of its last
/// change in milliseconds since the Unix epoch where the file system told
/// it, and the clock at the time of reading.
#[derive(Clone, Debug)]
pub struct DocumentRead {
    pub bytes: Vec<u8>,
    pub modified_unix_ms: Option<u64>,
    pub read_at_unix_ms: u64,
}

/// The last state in which a document was seen.
#[derive(Clone, Debug)]
pub struct CachedDocument {
    pub content_hash: String,
    pub byte_len: u64,
    pub updated_at_unix_ms: u64,
}

/// The mathematical value of a `CachedDocument`.
pub struct DocumentState {
    pub content_hash: Seq<char>,
    pub byte_len: u64,
    pub updated_at_unix_ms: u64,
}

impl View for CachedDocument {
    type V = DocumentState;

    open spec fn view(&self) -> DocumentState {
        DocumentState {
            content_hash: self.content_hash@,
            byte_len: self.byte_len,
            updated_at_unix_ms: self.updated_at_unix_ms,
        }
    }
}

/// The state of a document whose file was read as `read`.
pub open spec fn state_of_read(read: DocumentRead) -> DocumentState {
    DocumentState {
        content_hash: blake3_hex(read.bytes@),
        byte_len: read.bytes@.len() as u64,
        updated_at_unix_ms: match read.modified_unix_ms {
            Some(at) => at,
            None => read.read_at_unix_ms,
        },
    }
}

/// The state of a document after an attempt to read its file; none, if the
/// file could not be read.
pub open spec fn document_state(read: Option<DocumentRead>) -> Option<DocumentState> {
    match read {
        Some(read) => Some(state_of_read(read)),
        None => None,
    }
}

/// Whether two states have one fingerprint: the same content hash and the
/// same length.
pub open spec fn same_fingerprint(a: DocumentState, b: DocumentState) -> bool {
    a.content_hash == b.content_hash && a.byte_len == b.byte_len
}

/// Whether a document changed between two observations. A document that
/// is absent both times did not; one that appeared or went away did.
pub open spec fn fingerprint_changed(prev: Option<DocumentState>, next: Option<DocumentState>)
    -> bool {
    match (prev, next) {
        (None, None) => false,
        (Some(prev), Some(next)) => !same_fingerprint(prev, next),
        _ => true,
    }
}

pub fn read_document_state(read: &Option<DocumentRead>) -> (r: Option<CachedDocument>)
    ensures
        match r {
            Some(doc) => document_state(*read) == Some(doc@),
            None => document_state(*read) is None,
        },
{
    match read {
        Some(read) => {
            let byte_len: u64 = read.bytes.len() as u64;
            let updated_at_unix_ms: u64 = match read.modified_unix_ms {
                Some(at) => at,
                None => read.read_at_unix_ms,
            };
            Some(
                CachedDocument { content_hash: content_hash(read.bytes.as_slice()), byte_len, updated_at_unix_ms },
            )
        },
        None => None,
    }
}

/// The documents seen so far, by task and kind.
pub struct DocumentCache {
    task: StringMap<CachedDocument>,
    plan: StringMap<CachedDocument>,
    memory: StringMap<CachedDocument>,
}

pub type DocumentStates = Map<(Seq<char>, TaskDocumentKind), DocumentState>;

impl DocumentCache {
    spec fn of_kind(self, kind: TaskDocumentKind) -> Map<Seq<char>, CachedDocument> {
        match kind {
            TaskDocumentKind::Task => self.task@,
            TaskDocumentKind::Plan => self.plan@,
            TaskDocumentKind::Memory => self.memory@,
        }
    }
}

impl View for DocumentCache {
    type V = DocumentStates;

    closed spec fn view(&self) -> DocumentStates {
        Map::new(
            |k: (Seq<char>, TaskDocumentKind)| self.of_kind(k.1).contains_key(k.0),
            |k: (Seq<char>, TaskDocumentKind)| self.of_kind(k.1)[k.0]@,
        )
    }
}

impl DocumentCache {
    pub fn new() -> (out: Self)
        ensures
            out@ == Map::<(Seq<char>, TaskDocumentKind), DocumentState>::empty(),
    {
        let out = DocumentCache {
            task: StringMap::new(),
            plan: StringMap::new(),
            memory: StringMap::new(),
        };
        assert(out@ =~= Map::<(Seq<char>, TaskDocumentKind), DocumentState>::empty());
        out
    }

    pub fn get(&self, task_ulid: &String, kind: TaskDocumentKind) -> (r: Option<&CachedDocument>)
        ensures
            match r {
                Some(doc) => self@.contains_key((task_ulid@, kind)) && doc@ == self@[(
                    task_ulid@,
                    kind,
                )],
                None => !self@.contains_key((task_ulid@, kind)),
            },
    {
        match kind {
            TaskDocumentKind::Task => self.task.get(task_ulid),
            TaskDocumentKind::Plan => self.plan.get(task_ulid),
            TaskDocumentKind::Memory => self.memory.get(task_ulid),
        }
    }

    pub fn insert(&mut self, task_ulid: String, kind: TaskDocumentKind, doc: CachedDocument)
        ensures
            final(self)@ == old(self)@.insert((task_ulid@, kind), doc@),
    {
        match kind {
            TaskDocumentKind::Task => self.task.insert(task_ulid, doc),
            TaskDocumentKind::Plan => self.plan.insert(task_ulid, doc),
            TaskDocumentKind::Memory => self.memory.insert(task_ulid, doc),
        }
        assert(self@ =~= old(self)@.insert((task_ulid@, kind), doc@));
    }

    pub fn remove(&mut self, task_ulid: &String, kind: TaskDocumentKind)
        ensures
            final(self)@ == old(self)@.remove((task_ulid@, kind)),
    {
        match kind {
            TaskDocumentKind::Task => {
                let _ = self.task.remove(task_ulid);
            },
            TaskDocumentKind::Plan => {
                let _ = self.plan.remove(task_ulid);
            },
            TaskDocumentKind::Memory => {
                let _ = self.memory.remove(task_ulid);
            },
        }
        assert(self@ =~= old(self)@.remove((task_ulid@, kind)));
    }

    pub fn clear(&mut self)
        ensures
            final(self)@ == Map::<(Seq<char>, TaskDocumentKind), DocumentState>::empty(),
    {
        self.task.clear();
        self.plan.clear();
        self.memory.clear();
        assert(self@ =~= Map::<(Seq<char>, TaskDocumentKind), DocumentState>::empty());
    }
}


// ---------------------------------------------------------------------------
// Events
// ---------------------------------------------------------------------------

/// The live watch: the directory that is watched and the workspaces whose
/// documents are reported.
#[derive(Clone, Debug)]
pub struct WatchedState {
    pub tasks_root: String,
    pub active_workspaces: Vec<WorkspaceId>,
}

impl WatchedState {
    /// The set of active workspaces.
    pub open spec fn active(self) -> Set<WorkspaceId> {
        self.active_workspaces@.to_set()
    }

    pub fn is_active(&self, workspace_id: WorkspaceId) -> (r: bool)
        ensures
            r == self.active().contains(workspace_id),
    {
        let mut i: usize = 0;
        while i < self.active_workspaces.len()
            invariant
                i <= self.active_workspaces.len(),
                forall|j: int| 0 <= j < i ==> self.active_workspaces@[j] != workspace_id,
            decreases self.active_workspaces.len() - i,
        {
            if self.active_workspaces[i] == workspace_id {
                assert(self.active_workspaces@.contains(workspace_id));
                return true;
            }
            i = i + 1;
        }
        false
    }
}

/// What the loop saw for one path of a file system event: the path's
/// components below the watched root, each as text if it is text; what
/// reading the document file of that task gave, if the path is a document's;
/// and what reading the task's `task.json` gave.
#[derive(Clone, Debug)]
pub struct ObservedPath {
    pub components: Vec<Option<String>>,
    pub document: Option<DocumentRead>,
    pub sidecar: SidecarRead,
}

/// The two caches of the watcher, as mathematical maps.
pub struct Caches {
    pub documents: DocumentStates,
    pub identities: Map<Seq<char>, TaskIdentity>,
}

/// The caches and the changes to report, in the course of one event.
pub struct Observed {
    pub caches: Caches,
    pub changed: Seq<TaskDocumentObserved>,
}

/// The identities after a task's identity was asked for, and the answer:
/// the cached one, or else the one that `task.json` or the directory name
/// gives, which is then cached.
pub open spec fn load_identity(
    identities: Map<Seq<char>, TaskIdentity>,
    task_ulid: Seq<char>,
    sidecar: SidecarRead,
) -> (Map<Seq<char>, TaskIdentity>, Option<TaskIdentity>) {
    if identities.contains_key(task_ulid) {
        (identities, Some(identities[task_ulid]))
    } else {
        match sidecar_identity(task_ulid, sidecar) {
            Some(identity) => (identities.insert(task_ulid, identity), Some(identity)),
            None => (identities, None),
        }
    }
}

/// The identities after `task.json` of a task was seen to change.
pub open spec fn refresh_identity(
    identities: Map<Seq<char>, TaskIdentity>,
    task_ulid: Seq<char>,
    sidecar: SidecarRead,
) -> Map<Seq<char>, TaskIdentity> {
    match sidecar_identity(task_ulid, sidecar) {
        Some(identity) => identities.insert(task_ulid, identity),
        None => identities.remove(task_ulid),
    }
}

/// The documents after one of them was seen in a new state.
pub open spec fn store_document(
    documents: DocumentStates,
    key: (Seq<char>, TaskDocumentKind),
    next: Option<DocumentState>,
) -> DocumentStates {
    match next {
        Some(state) => documents.insert(key, state),
        None => documents.remove(key),
    }
}

/// The changes to report once a changed document's owner is known: one more,
/// if the owner's workspace is active and the change is not reported yet.
pub open spec fn record_change(
    changed: Seq<TaskDocumentObserved>,
    active: Set<WorkspaceId>,
    identity: Option<TaskIdentity>,
    kind: TaskDocumentKind,
) -> Seq<TaskDocumentObserved> {
    match identity {
        Some(identity) => {
            let change = TaskDocumentObserved {
                workspace_id: identity.workspace_id,
                thread_id: identity.task_id,
                kind,
            };
            if active.contains(identity.workspace_id) && !changed.contains(change) {
                changed.push(change)
            } else {
                changed
            }
        },
        None => changed,
    }
}

/// What one observed path does to the caches and to the changes to report.
pub open spec fn observe_path(
    caches: Caches,
    active: Set<WorkspaceId>,
    changed: Seq<TaskDocumentObserved>,
    path: ObservedPath,
) -> Observed {
    match classify_path(path.components@) {
        None => Observed { caches, changed },
        Some((task_ulid, TaskEventFile::Identity)) => Observed {
            caches: Caches {
                documents: caches.documents,
                identities: refresh_identity(caches.identities, task_ulid, path.sidecar),
            },
            changed,
        },
        Some((task_ulid, TaskEventFile::Document(kind))) => {
            let key = (task_ulid, kind);
            let prev = if caches.documents.contains_key(key) {
                Some(caches.documents[key])
            } else {
                None
            };
            let next = document_state(path.document);
            if !fingerprint_changed(prev, next) {
                Observed { caches, changed }
            } else {
                let loaded = load_identity(caches.identities, task_ulid, path.sidecar);
                Observed {
                    caches: Caches {
                        documents: store_document(caches.documents, key, next),
                        identities: loaded.0,
                    },
                    changed: record_change(changed, active, loaded.1, kind),
                }
            }
        },
    }
}

/// What the observed paths of one event do, taken in order.
pub open spec fn observe_paths(
    caches: Caches,
    active: Set<WorkspaceId>,
    changed: Seq<TaskDocumentObserved>,
    paths: Seq<ObservedPath>,
) -> Observed
    decreases paths.len(),
{
    if paths.len() == 0 {
        Observed { caches, changed }
    } else {
        let before = observe_paths(caches, active, changed, paths.drop_last());
        observe_path(before.caches, active, before.changed, paths.last())
    }
}

/// The identity of a task: the cached one, or else the one that `sidecar`
/// gives, which is then cached. `sidecar` is what reading the task's
/// `task.json` gave; it is not looked at where the identity is cached.
pub fn load_task_identity(
    task_ulid: &String,
    identities: &mut StringMap<TaskIdentity>,
    sidecar: &SidecarRead,
) -> (r: Option<TaskIdentity>)
    ensures
        (final(identities)@, r) == load_identity(old(identities)@, task_ulid@, *sidecar),
{
    if let Some(identity) = identities.get(task_ulid) {
        return Some(*identity);
    }
    match read_task_identity(task_ulid, sidecar) {
        Some(identity) => {
            identities.insert(task_ulid.clone(), identity);
            Some(identity)
        },
        None => None,
    }
}

fn already_reported(changed: &Vec<TaskDocumentObserved>, change: TaskDocumentObserved) -> (r: bool)
    ensures
        r == changed@.contains(change),
{
    let mut i: usize = 0;
    while i < changed.len()
        invariant
            i <= changed.len(),
            forall|j: int| 0 <= j < i ==> changed@[j] != change,
        decreases changed.len() - i,
    {
        if changed[i] == change {
            return true;
        }
        i = i + 1;
    }
    false
}

fn observe(
    watched: &WatchedState,
    cache: &mut DocumentCache,
    identities: &mut StringMap<TaskIdentity>,
    changed: &mut Vec<TaskDocumentObserved>,
    path: &ObservedPath,
)
    ensures
        (Observed {
            caches: Caches { documents: final(cache)@, identities: final(identities)@ },
            changed: final(changed)@,
        }) == observe_path(
            Caches { documents: old(cache)@, identities: old(identities)@ },
            watched.active(),
            old(changed)@,
            *path,
        ),
{
    let (task_ulid, event_file) = match resolve_task_event_path(&path.components) {
        Some(found) => found,
        None => {
            return ;
        },
    };
    match event_file {
        TaskEventFile::Identity => {
            match read_task_identity(&task_ulid, &path.sidecar) {
                Some(identity) => {
                    identities.insert(task_ulid, identity);
                },
                None => {
                    let _ = identities.remove(&task_ulid);
                },
            }
        },
        TaskEventFile::Document(kind) => {
            let next = read_document_state(&path.document);
            let is_changed = match (cache.get(&task_ulid, kind), &next) {
                (None, None) => false,
                (Some(prev), Some(next)) => !(prev.content_hash == next.content_hash
                    && prev.byte_len == next.byte_len),
                _ => true,
            };
            if !is_changed {
                return ;
            }
            match next {
                Some(doc) => {
                    cache.insert(task_ulid.clone(), kind, doc);
                },
                None => {
                    cache.remove(&task_ulid, kind);
                },
            }
            let identity = match load_task_identity(&task_ulid, identities, &path.sidecar) {
                Some(identity) => identity,
                None => {
                    return ;
                },
            };
            if !watched.is_active(identity.workspace_id) {
                return ;
            }
            let change = TaskDocumentObserved {
                workspace_id: identity.workspace_id,
                thread_id: identity.task_id,
                kind,
            };
            if !already_reported(changed, change) {
                changed.push(change);
            }
        },
    }
}

/// Takes in what was seen for the paths of one file system event, in order,
/// and returns the document changes to report: each changed document of a
/// task of an active workspace, once.
pub fn changed_documents_from_event(
    watched: &WatchedState,
    cache: &mut DocumentCache,
    identities: &mut StringMap<TaskIdentity>,
    paths: &Vec<ObservedPath>,
) -> (changed: Vec<TaskDocumentObserved>)
    ensures
        (Observed {
            caches: Caches { documents: final(cache)@, identities: final(identities)@ },
            changed: changed@,
        }) == observe_paths(
            Caches { documents: old(cache)@, identities: old(identities)@ },
            watched.active(),
            Seq::empty(),
            paths@,
        ),
        changed@.no_duplicates(),
        forall|i: int|
            0 <= i < changed@.len() ==> watched.active().contains(
                (#[trigger] changed@[i]).workspace_id,
            ),
{
    let mut changed: Vec<TaskDocumentObserved> = Vec::new();
    let mut i: usize = 0;
    while i < paths.len()
        invariant
            i <= paths.len(),
            (Observed {
                caches: Caches { documents: cache@, identities: identities@ },
                changed: changed@,
            }) == observe_paths(
                Caches { documents: old(cache)@, identities: old(identities)@ },
                watched.active(),
                Seq::empty(),
                paths@.take(i as int),
            ),
        decreases paths.len() - i,
    {
        observe(watched, cache, identities, &mut changed, &paths[i]);
        i = i + 1;
        assert(paths@.take(i as int).drop_last() =~= paths@.take(i as int - 1));
    }
    assert(paths@.take(i as int) =~= paths@);
    proof {
        let caches = Caches { documents: old(cache)@, identities: old(identities)@ };
        lemma_no_change_is_reported_twice(caches, watched.active(), Seq::empty(), paths@);
        lemma_only_active_workspaces_are_reported(caches, watched.active(), Seq::empty(), paths@);
    }
    changed
}


// ---------------------------------------------------------------------------
// The watcher
// ---------------------------------------------------------------------------

/// The state that the watch loop owns: the live watch, if there is one, and
/// the two caches.
pub struct TaskDocumentWatcher {
    watched: Option<WatchedState>,
    cache: DocumentCache,
    identities: StringMap<TaskIdentity>,
}

/// The mathematical value of the watcher: the watched root with the active
/// set, where a watch is live, and the caches.
pub struct WatcherState {
    pub watched: Option<(Seq<char>, Set<WorkspaceId>)>,
    pub caches: Caches,
}

impl WatcherState {
    /// The watched root, where a watch is live.
    pub open spec fn root(self) -> Option<Seq<char>> {
        match self.watched {
            Some((root, _)) => Some(root),
            None => None,
        }
    }
}

/// What `sync_workspaces` asks of the loop.
#[derive(Debug)]
pub enum SyncAction {
    /// No root could be determined: nothing changed and nothing is to do.
    Disabled,
    /// The root is the watched one: the active set was replaced in place.
    FilterUpdated,
    /// The root is new. The watcher has let go of the old watch and emptied
    /// its caches; the loop stops watching `unwatch`, starts to watch
    /// `watch`, and calls `confirm_watch` if that worked.
    Rewatch { unwatch: Option<String>, watch: String, workspaces: Vec<WorkspaceId> },
}

pub open spec fn no_caches() -> Caches {
    Caches { documents: Map::empty(), identities: Map::empty() }
}

/// The watcher after a request to watch `tasks_root` for `active`.
pub open spec fn after_sync(
    state: WatcherState,
    tasks_root: Option<Seq<char>>,
    active: Set<WorkspaceId>,
) -> WatcherState {
    match tasks_root {
        None => state,
        Some(root) => match state.watched {
            Some((watched_root, _)) if watched_root == root => WatcherState {
                watched: Some((root, active)),
                caches: state.caches,
            },
            _ => WatcherState { watched: None, caches: no_caches() },
        },
    }
}

/// The watcher after the events of `paths` were seen. Without a live watch
/// nothing is taken in.
pub open spec fn after_event(state: WatcherState, paths: Seq<ObservedPath>) -> WatcherState {
    match state.watched {
        None => state,
        Some((_, active)) => WatcherState {
            watched: state.watched,
            caches: observe_paths(state.caches, active, Seq::empty(), paths).caches,
        },
    }
}

/// The changes that the watcher reports for the events of `paths`.
pub open spec fn reported(state: WatcherState, paths: Seq<ObservedPath>) -> Seq<
    TaskDocumentObserved,
> {
    match state.watched {
        None => Seq::empty(),
        Some((_, active)) => observe_paths(state.caches, active, Seq::empty(), paths).changed,
    }
}

impl View for TaskDocumentWatcher {
    type V = WatcherState;

    closed spec fn view(&self) -> WatcherState {
        WatcherState {
            watched: match self.watched {
                Some(watched) => Some((watched.tasks_root@, watched.active())),
                None => None,
            },
            caches: Caches { documents: self.cache@, identities: self.identities@ },
        }
    }
}

impl TaskDocumentWatcher {
    /// A watcher that watches nothing yet.
    pub fn new() -> (out: Self)
        ensures
            out@ == (WatcherState { watched: None, caches: no_caches() }),
    {
        TaskDocumentWatcher {
            watched: None,
            cache: DocumentCache::new(),
            identities: StringMap::new(),
        }
    }

    /// Whether a watch is live.
    pub fn is_watching(&self) -> (r: bool)
        ensures
            r == self@.watched.is_some(),
    {
        self.watched.is_some()
    }

    /// Takes a request to watch `tasks_root` for the workspaces
    /// `workspaces`, where `tasks_root` is the resolved, existing root, or
    /// none if it could not be determined or made.
    pub fn sync_workspaces(&mut self, tasks_root: Option<String>, workspaces: Vec<WorkspaceId>) -> (action: SyncAction)
        ensures
            final(self)@ == after_sync(
                old(self)@,
                match tasks_root {
                    Some(root) => Some(root@),
                    None => None,
                },
                workspaces@.to_set(),
            ),
            match action {
                SyncAction::Disabled => tasks_root is None,
                SyncAction::FilterUpdated => tasks_root is Some && old(self)@.root() == Some(
                    tasks_root->0@,
                ),
                SyncAction::Rewatch { unwatch, watch, workspaces: handed_back } => {
                    &&& tasks_root is Some
                    &&& watch@ == tasks_root->0@
                    &&& handed_back@ == workspaces@
                    &&& match unwatch {
                        Some(old_root) => old(self)@.root() == Some(old_root@) && old_root@
                            != watch@,
                        None => old(self)@.root() is None,
                    }
                },
            },
    {
        let tasks_root = match tasks_root {
            Some(root) => root,
            None => {
                return SyncAction::Disabled;
            },
        };
        let previous = self.watched.take();
        match previous {
            Some(entry) => {
                if entry.tasks_root == tasks_root {
                    self.watched = Some(
                        WatchedState { tasks_root, active_workspaces: workspaces },
                    );
                    SyncAction::FilterUpdated
                } else {
                    self.cache.clear();
                    self.identities.clear();
                    SyncAction::Rewatch {
                        unwatch: Some(entry.tasks_root),
                        watch: tasks_root,
                        workspaces,
                    }
                }
            },
            None => {
                self.cache.clear();
                self.identities.clear();
                SyncAction::Rewatch { unwatch: None, watch: tasks_root, workspaces }
            },
        }
    }

    /// Records that the loop now watches `tasks_root`, for `workspaces`.
    pub fn confirm_watch(&mut self, tasks_root: String, workspaces: Vec<WorkspaceId>)
        ensures
            final(self)@ == (WatcherState {
                watched: Some((tasks_root@, workspaces@.to_set())),
                caches: old(self)@.caches,
            }),
    {
        self.watched = Some(WatchedState { tasks_root, active_workspaces: workspaces });
    }

    /// Takes in what was seen for the paths of one file system event and
    /// returns the changes to report. Without a live watch the event is
    /// dropped.
    pub fn handle_event(&mut self, paths: &Vec<ObservedPath>) -> (changed: Vec<
        TaskDocumentObserved,
    >)
        ensures
            final(self)@ == after_event(old(self)@, paths@),
            changed@ == reported(old(self)@, paths@),
            changed@.no_duplicates(),
    {
        match &self.watched {
            Some(watched) => changed_documents_from_event(
                watched,
                &mut self.cache,
                &mut self.identities,
                paths,
            ),
            None => Vec::new(),
        }
    }
}

// ---------------------------------------------------------------------------
// The root
// ---------------------------------------------------------------------------

/// The directories below the root of the tool's files that lead to the task
/// documents.
pub open spec fn tasks_subpath() -> Seq<Seq<char>> {
    seq!["tasks"@, "v1"@, "tasks"@]
}

/// The parts of the path of the task documents root, to be joined in order:
/// the override, trimmed, where one is set and not blank; else the
/// directory `luban` of the home directory; then `tasks/v1/tasks`. None
/// where the override is blank, or where neither is known.
pub open spec fn documents_root_parts(
    root_override: Option<Seq<char>>,
    home: Option<Seq<char>>,
) -> Option<Seq<Seq<char>>> {
    match root_override {
        Some(root) => if trim(root).len() == 0 {
            None
        } else {
            Some(seq![trim(root)] + tasks_subpath())
        },
        None => match home {
            Some(home) => Some(seq![home, "luban"@] + tasks_subpath()),
            None => None,
        },
    }
}

/// Decides where the task documents live, from the value of the root
/// override of the environment and the home directory, each if set.
pub fn resolve_task_documents_root(root_override: Option<&str>, home: Option<&str>) -> (r: Option<
    Vec<String>,
>)
    ensures
        match r {
            Some(parts) => Some(texts(parts@)) == documents_root_parts(
                match root_override {
                    Some(root) => Some(root@),
                    None => None,
                },
                match home {
                    Some(home) => Some(home@),
                    None => None,
                },
            ),
            None => documents_root_parts(
                match root_override {
                    Some(root) => Some(root@),
                    None => None,
                },
                match home {
                    Some(home) => Some(home@),
                    None => None,
                },
            ) is None,
        },
{
    let mut parts: Vec<String> = Vec::new();
    match root_override {
        Some(root) => {
            let raw = chars_of(root);
            let trimmed = trim_chars(&raw);
            if trimmed.len() == 0 {
                return None;
            }
            parts.push(string_of(&trimmed));
        },
        None => {
            match home {
                Some(home) => {
                    parts.push(home.to_owned());
                    parts.push("luban".to_owned());
                },
                None => {
                    return None;
                },
            }
        },
    }
    let ghost base = texts(parts@);
    parts.push("tasks".to_owned());
    parts.push("v1".to_owned());
    parts.push("tasks".to_owned());
    assert(texts(parts@) =~= base + tasks_subpath());
    Some(parts)
}

// ---------------------------------------------------------------------------
// What holds of every event
// ---------------------------------------------------------------------------

/// A path that is not `<task_ulid>/<file>` with one of the four known file
/// names changes nothing and reports nothing.
pub proof fn lemma_unrelated_path_is_ignored(
    caches: Caches,
    active: Set<WorkspaceId>,
    changed: Seq<TaskDocumentObserved>,
    path: ObservedPath,
)
    requires
        path.components@.len() != 2 || path.components@[1] is None || classify_file_name(
            path.components@[1]->0@,
        ) is None,
    ensures
        classify_path(path.components@) is None,
        observe_path(caches, active, changed, path) == (Observed { caches, changed }),
{
}

/// A document that is seen again with the fingerprint it was last seen with
/// (the same bytes, or absent both times) changes nothing and reports
/// nothing, whatever was reported before.
pub proof fn lemma_unchanged_content_is_silent(
    caches: Caches,
    active: Set<WorkspaceId>,
    changed: Seq<TaskDocumentObserved>,
    first: ObservedPath,
    later_active: Set<WorkspaceId>,
    later_changed: Seq<TaskDocumentObserved>,
    second: ObservedPath,
)
    requires
        classify_path(first.components@) == classify_path(second.components@),
        classify_path(first.components@) matches Some((_, TaskEventFile::Document(_))),
        !fingerprint_changed(document_state(first.document), document_state(second.document)),
    ensures
        observe_path(
            observe_path(caches, active, changed, first).caches,
            later_active,
            later_changed,
            second,
        ) == (Observed {
            caches: observe_path(caches, active, changed, first).caches,
            changed: later_changed,
        }),
{
}

/// The same bytes have the same fingerprint, whenever they were written.
pub proof fn lemma_same_bytes_same_fingerprint(first: DocumentRead, second: DocumentRead)
    requires
        first.bytes@ == second.bytes@,
    ensures
        !fingerprint_changed(document_state(Some(first)), document_state(Some(second))),
{
}

/// Every change that an event reports is of a task whose workspace is in
/// the active set: a change for any other workspace is dropped.
pub proof fn lemma_only_active_workspaces_are_reported(
    caches: Caches,
    active: Set<WorkspaceId>,
    changed: Seq<TaskDocumentObserved>,
    paths: Seq<ObservedPath>,
)
    requires
        forall|i: int|
            0 <= i < changed.len() ==> active.contains((#[trigger] changed[i]).workspace_id),
    ensures
        forall|i: int|
            0 <= i < observe_paths(caches, active, changed, paths).changed.len()
                ==> active.contains(
                (#[trigger] observe_paths(caches, active, changed, paths).changed[i]).workspace_id,
            ),
    decreases paths.len(),
{
    if paths.len() > 0 {
        lemma_only_active_workspaces_are_reported(caches, active, changed, paths.drop_last());
    }
}

/// An event reports no change twice, however many of its paths stand for
/// one document.
pub proof fn lemma_no_change_is_reported_twice(
    caches: Caches,
    active: Set<WorkspaceId>,
    changed: Seq<TaskDocumentObserved>,
    paths: Seq<ObservedPath>,
)
    requires
        changed.no_duplicates(),
    ensures
        observe_paths(caches, active, changed, paths).changed.no_duplicates(),
    decreases paths.len(),
{
    if paths.len() > 0 {
        lemma_no_change_is_reported_twice(caches, active, changed, paths.drop_last());
        let before = observe_paths(caches, active, changed, paths.drop_last());
        let after = observe_path(before.caches, active, before.changed, paths.last());
        if after.changed != before.changed {
            let last = after.changed.last();
            assert(after.changed == before.changed.push(last));
            assert(!before.changed.contains(last));
        }
    }
}

} // verus!
