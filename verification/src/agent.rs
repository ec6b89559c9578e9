//! How an agent is run for a prompt. The kinds of runner and the levels of
//! thinking effort are the caller's: the two types stand for them.

use crate::attachments::AttachmentRef;
use vstd::prelude::*;

verus! {

#[derive(Clone, Debug, PartialEq, Eq)]
pub struct AgentRunConfig<Runner, Effort> {
    pub runner: Runner,
    pub model_id: String,
    pub thinking_effort: Effort,
    pub amp_mode: Option<String>,
}

/// A prompt that waits for its turn.
#[derive(Clone, Debug, PartialEq, Eq)]
pub struct QueuedPrompt<Runner, Effort> {
    pub id: u64,
    pub text: String,
    pub attachments: Vec<AttachmentRef>,
    pub run_config: AgentRunConfig<Runner, Effort>,
}

} // verus!
