//! The prompts of the system tasks: the small jobs that the tool gives to a
//! model on its own account.

use vstd::prelude::*;

verus! {

#[derive(Clone, Copy, Debug, PartialEq, Eq, Hash, Structural)]
pub enum SystemTaskKind {
    InferType,
    RenameBranch,
}

/// The prompt that asks for the intent kind of a task input.
pub const INFER_TYPE_TEMPLATE: &'static str = r#"You are classifying a user's input into a task intent kind.

Rules:
- Do NOT run commands.
- Do NOT modify files.
- Output ONLY a single JSON object, no markdown, no extra text.
- Always output a result, even if the input is vague: choose intent_kind="other".
- Do NOT include rationale, notes, or any extra fields in the output.
- Do NOT ask the user for more info in the output.

Allowed intent_kind values:
- fix
- implement
- review
- discuss
- other

Input:
{{task_input}}

Retrieved context (JSON):
{{context_json}}

Output JSON schema:
{
  "intent_kind": "<one of the allowed values>"
}
"#;

/// The prompt that asks for a branch name.
pub const RENAME_BRANCH_TEMPLATE: &'static str = r#"You are generating a git branch name.

Rules:
- Do NOT run commands.
- Do NOT modify files.
- Output ONLY a single line, no markdown, no extra text.
- Always output a result, even if the input is vague: output "luban/misc".
- Do NOT include rationale, notes, quotes, or code fences.
- Do NOT ask the user for more info.

Branch name requirements:
- Must start with "luban/".
- Must use lowercase letters, numbers, and hyphens only after the prefix.
- Keep it short (prefer <= 24 chars after "luban/").
- Use hyphens to connect words.
- Avoid trailing hyphens.
- Include identifiers (like issue/pr number) only when helpful.

Input:
{{task_input}}

Retrieved context:
{{context_json}}
"#;

impl SystemTaskKind {
    /// All system tasks, in the order in which they are listed.
    pub open spec fn all() -> Seq<SystemTaskKind> {
        seq![SystemTaskKind::InferType, SystemTaskKind::RenameBranch]
    }

    pub open spec fn key(self) -> Seq<char> {
        match self {
            SystemTaskKind::InferType => "infer-type"@,
            SystemTaskKind::RenameBranch => "rename-branch"@,
        }
    }

    pub open spec fn title(self) -> Seq<char> {
        match self {
            SystemTaskKind::InferType => "Infer Type"@,
            SystemTaskKind::RenameBranch => "Rename Branch"@,
        }
    }

    /// The default prompt template of the task.
    pub open spec fn template(self) -> Seq<char> {
        match self {
            SystemTaskKind::InferType => INFER_TYPE_TEMPLATE@,
            SystemTaskKind::RenameBranch => RENAME_BRANCH_TEMPLATE@,
        }
    }

    /// The key under which the task's prompt is kept.
    pub fn as_key(self) -> (key: &'static str)
        ensures
            key@ == self.key(),
    {
        match self {
            SystemTaskKind::InferType => "infer-type",
            SystemTaskKind::RenameBranch => "rename-branch",
        }
    }

    /// The name of the task as shown.
    pub fn label(self) -> (label: &'static str)
        ensures
            label@ == self.title(),
    {
        match self {
            SystemTaskKind::InferType => "Infer Type",
            SystemTaskKind::RenameBranch => "Rename Branch",
        }
    }
}

pub fn default_system_prompt_template(kind: SystemTaskKind) -> (template: String)
    ensures
        template@ == kind.template(),
{
    match kind {
        SystemTaskKind::InferType => INFER_TYPE_TEMPLATE.to_owned(),
        SystemTaskKind::RenameBranch => RENAME_BRANCH_TEMPLATE.to_owned(),
    }
}

/// The default template of every system task: one entry for each kind, in
/// the order of `SystemTaskKind::all`.
pub fn default_system_prompt_templates() -> (out: Vec<(SystemTaskKind, String)>)
    ensures
        out@.len() == SystemTaskKind::all().len(),
        forall|i: int|
            0 <= i < out@.len() ==> (#[trigger] out@[i]).0 == SystemTaskKind::all()[i]
                && out@[i].1@ == SystemTaskKind::all()[i].template(),
{
    let mut out: Vec<(SystemTaskKind, String)> = Vec::new();
    out.push(
        (SystemTaskKind::InferType, default_system_prompt_template(SystemTaskKind::InferType)),
    );
    out.push(
        (
            SystemTaskKind::RenameBranch,
            default_system_prompt_template(SystemTaskKind::RenameBranch),
        ),
    );
    out
}

} // verus!
