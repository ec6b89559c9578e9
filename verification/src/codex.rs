//! The events that a Codex agent run reports, as plain values.

use vstd::prelude::*;

verus! {

/// A JSON value of `serde_json`, carried through as it came.
#[verifier::external_type_specification]
#[verifier::external_body]
pub struct ExJsonValue(serde_json::Value);

/// `Clone::clone` of `serde_json::Value`, which the derived `Clone` of the
/// types below calls. Nothing is claimed of the copy.
pub assume_specification[ <serde_json::Value as Clone>::clone ](
    value: &serde_json::Value,
) -> (copy: serde_json::Value)
;

#[derive(Clone, Debug, PartialEq, Eq, Structural)]
pub enum CodexCommandExecutionStatus {
    InProgress,
    Completed,
    Failed,
}

#[derive(Clone, Debug, PartialEq, Eq, Structural)]
pub enum CodexPatchChangeKind {
    Add,
    Delete,
    Update,
}

#[derive(Clone, Debug, PartialEq, Eq)]
pub struct CodexFileUpdateChange {
    pub path: String,
    pub kind: CodexPatchChangeKind,
}

#[derive(Clone, Debug, PartialEq, Eq, Structural)]
pub enum CodexPatchApplyStatus {
    Completed,
    Failed,
}

#[derive(Clone, Debug, PartialEq, Eq, Structural)]
pub enum CodexMcpToolCallStatus {
    InProgress,
    Completed,
    Failed,
}

#[derive(Clone, Debug, PartialEq, Eq)]
pub struct CodexErrorMessage {
    pub message: String,
}

#[derive(Clone, Debug, PartialEq, Eq)]
pub struct CodexTodoItem {
    pub text: String,
    pub completed: bool,
}

#[derive(Clone, Debug)]
pub enum CodexThreadItem {
    AgentMessage { id: String, text: String },
    Reasoning { id: String, text: String },
    CommandExecution {
        id: String,
        command: String,
        aggregated_output: String,
        exit_code: Option<i32>,
        status: CodexCommandExecutionStatus,
    },
    FileChange { id: String, changes: Vec<CodexFileUpdateChange>, status: CodexPatchApplyStatus },
    McpToolCall {
        id: String,
        server: String,
        tool: String,
        arguments: serde_json::Value,
        result: Option<serde_json::Value>,
        error: Option<CodexErrorMessage>,
        status: CodexMcpToolCallStatus,
    },
    WebSearch { id: String, query: String },
    TodoList { id: String, items: Vec<CodexTodoItem> },
    Error { id: String, message: String },
}

#[derive(Clone, Debug, PartialEq, Eq, Structural)]
pub struct CodexUsage {
    pub input_tokens: u64,
    pub cached_input_tokens: u64,
    pub output_tokens: u64,
}

#[derive(Clone, Debug, PartialEq, Eq)]
pub struct CodexThreadError {
    pub message: String,
}

#[derive(Clone, Debug)]
pub enum CodexThreadEvent {
    ThreadStarted { thread_id: String },
    TurnStarted,
    TurnCompleted { usage: CodexUsage },
    TurnDuration { duration_ms: u64 },
    TurnFailed { error: CodexThreadError },
    ItemStarted { item: CodexThreadItem },
    ItemUpdated { item: CodexThreadItem },
    ItemCompleted { item: CodexThreadItem },
    Error { message: String },
}

} // verus!
