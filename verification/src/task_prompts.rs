//! The prompts that start an agent on a task, by the intent of the task.

use vstd::prelude::*;

verus! {

/// What a task is meant to do.
#[derive(Clone, Copy, Debug, PartialEq, Eq, Hash, Structural)]
pub enum TaskIntentKind {
    FixIssue,
    ImplementFeature,
    ReviewPullRequest,
    ResolvePullRequestConflicts,
    AddProject,
    Other,
}

/// What every task prompt begins with.
pub const BASE_HEADER: &'static str = "You are an AI coding agent working inside a git worktree.\n\
\n\
Task input:\n\
{{task_input}}\n\
\n\
Intent:\n\
{{intent_label}}\n\
\n\
{{known_context}}\n\
\n\
Global constraints:\n\
- Do NOT commit, push, open a pull request, create a PR review, or comment on the upstream issue/PR unless the user explicitly asks.\n\
- You MAY run commands, inspect files, search the web, and modify code directly in this worktree.\n\
- Discover and follow the target repository's own practices (README/CONTRIBUTING/CI). Do not assume a specific toolchain or workflow.\n\
- Prefer the smallest correct change that addresses the root cause and follows the target repository's conventions.\n\
- If you are about to do anything destructive or irreversible (delete data, rewrite history, force push, etc.), stop and ask the user first.\n\
- When you change behavior, run the repository's existing checks/tests and report what you ran and what passed.\n\
\n\
Operating mode:\n\
- First, assess whether this \
task is SIMPLE or COMPLEX.\n  \
- SIMPLE: the goal is clear and likely requires a small, isolated change.\n  \
- COMPLEX: ambiguous requirements, multiple plausible approaches, cross-module impact, or high risk.\n\
- If SIMPLE: proceed to complete it end-to-end.\n\
- If COMPLEX: prioritize discussion and planning before making large changes.\n  \
- Share your root-cause analysis or key uncertainties.\n  \
- Propose a concrete plan with milestones and verification steps.\n  \
- Ask the user to confirm the next action you should take.\n\
\n\
Instructions:\n\
";

/// The instructions for fixing an issue.
pub const FIX_ISSUE_INSTRUCTIONS: &'static str = r#"- Goal: identify the root cause of the reported problem and fix it.
- Suggested flow:
  1) Reproduce (or create a minimal reproduction) and localize the fault.
  2) Explain the root cause in concrete terms (what/where/why).
  3) Implement the minimal fix and add/adjust tests to prevent regressions.
  4) Run the relevant verification and report results.
- Output: root cause, fix summary, and verification.
"#;

/// The instructions for implementing a feature.
pub const IMPLEMENT_FEATURE_INSTRUCTIONS: &'static str = r#"- Goal: implement the requested feature.
- If requirements are unclear or the change is broad, propose a design/plan first and ask the user to confirm before implementing.
- If requirements are clear and the change is small, implement it directly and verify.
- Output: what changed (user-visible), key implementation notes, and verification.
"#;

/// The instructions for reviewing a pull request.
pub const REVIEW_PULL_REQUEST_INSTRUCTIONS: &'static str = r#"- Goal: produce a high-quality code review of the referenced pull request.
- Constraints: Do NOT implement changes unless the user explicitly asks.
- Steps: understand intent, evaluate correctness and edge cases, check tests/CI, identify risks, and suggest improvements.
- Output: a structured review with actionable feedback, prioritized by severity.
"#;

/// The instructions for resolving the conflicts of a pull request.
pub const RESOLVE_PULL_REQUEST_CONFLICTS_INSTRUCTIONS: &'static str = r#"- Goal: resolve merge conflicts between the PR branch and the base branch.
- Steps: fetch latest upstream refs, resolve conflicts carefully, and run tests/verification.
- Constraints: Do NOT push or open PRs unless the user explicitly asks.
- Output: what conflicted, how you resolved it, and verification.
"#;

/// The instructions for taking a project in.
pub const ADD_PROJECT_INSTRUCTIONS: &'static str = r#"- Goal: initialize/onboard the specified project so it can be worked on locally.
- Steps: ensure the project is available locally, verify prerequisites, run basic checks, and summarize how to get started.
- Output: a concise setup guide and what was verified.
"#;

/// The instructions for anything else.
pub const OTHER_INSTRUCTIONS: &'static str = r#"- Goal: understand the user's request and move it forward.
- Steps: summarize intent, identify unknowns, propose next actions, and proceed if it is SIMPLE.
- Output: either an end-to-end completion (SIMPLE) or a plan + a request for the user's next instruction (COMPLEX).
"#;

impl TaskIntentKind {
    /// All intents, in the order in which they are listed.
    pub open spec fn all() -> Seq<TaskIntentKind> {
        seq![
            TaskIntentKind::FixIssue,
            TaskIntentKind::ImplementFeature,
            TaskIntentKind::ReviewPullRequest,
            TaskIntentKind::ResolvePullRequestConflicts,
            TaskIntentKind::AddProject,
            TaskIntentKind::Other,
        ]
    }

    /// The instructions that are particular to the intent.
    pub open spec fn instructions(self) -> Seq<char> {
        match self {
            TaskIntentKind::FixIssue => FIX_ISSUE_INSTRUCTIONS@,
            TaskIntentKind::ImplementFeature => IMPLEMENT_FEATURE_INSTRUCTIONS@,
            TaskIntentKind::ReviewPullRequest => REVIEW_PULL_REQUEST_INSTRUCTIONS@,
            TaskIntentKind::ResolvePullRequestConflicts => RESOLVE_PULL_REQUEST_CONFLICTS_INSTRUCTIONS@,
            TaskIntentKind::AddProject => ADD_PROJECT_INSTRUCTIONS@,
            TaskIntentKind::Other => OTHER_INSTRUCTIONS@,
        }
    }

    /// The default prompt template of the intent: the common header, then
    /// its own instructions.
    pub open spec fn template(self) -> Seq<char> {
        BASE_HEADER@ + self.instructions()
    }
}

pub fn default_task_prompt_template(kind: TaskIntentKind) -> (template: String)
    ensures
        template@ == kind.template(),
{
    let mut out = BASE_HEADER.to_owned();
    out.append(
        match kind {
            TaskIntentKind::FixIssue => FIX_ISSUE_INSTRUCTIONS,
            TaskIntentKind::ImplementFeature => IMPLEMENT_FEATURE_INSTRUCTIONS,
            TaskIntentKind::ReviewPullRequest => REVIEW_PULL_REQUEST_INSTRUCTIONS,
            TaskIntentKind::ResolvePullRequestConflicts => RESOLVE_PULL_REQUEST_CONFLICTS_INSTRUCTIONS,
            TaskIntentKind::AddProject => ADD_PROJECT_INSTRUCTIONS,
            TaskIntentKind::Other => OTHER_INSTRUCTIONS,
        },
    );
    out
}

/// The default template of every intent: one entry for each kind, in the
/// order of `TaskIntentKind::all`.
pub fn default_task_prompt_templates() -> (out: Vec<(TaskIntentKind, String)>)
    ensures
        out@.len() == TaskIntentKind::all().len(),
        forall|i: int|
            0 <= i < out@.len() ==> (#[trigger] out@[i]).0 == TaskIntentKind::all()[i]
                && out@[i].1@ == TaskIntentKind::all()[i].template(),
{
    let mut out: Vec<(TaskIntentKind, String)> = Vec::new();
    out.push((TaskIntentKind::FixIssue, default_task_prompt_template(TaskIntentKind::FixIssue)));
    out.push(
        (
            TaskIntentKind::ImplementFeature,
            default_task_prompt_template(TaskIntentKind::ImplementFeature),
        ),
    );
    out.push(
        (
            TaskIntentKind::ReviewPullRequest,
            default_task_prompt_template(TaskIntentKind::ReviewPullRequest),
        ),
    );
    out.push(
        (
            TaskIntentKind::ResolvePullRequestConflicts,
            default_task_prompt_template(TaskIntentKind::ResolvePullRequestConflicts),
        ),
    );
    out.push(
        (TaskIntentKind::AddProject, default_task_prompt_template(TaskIntentKind::AddProject)),
    );
    out.push((TaskIntentKind::Other, default_task_prompt_template(TaskIntentKind::Other)));
    out
}

} // verus!
