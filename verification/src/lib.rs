//! The verified core of a desktop tool that drives coding agents across
//! git worktrees.
//!
//! Two components carry the weight. `idempotency` coalesces callers that
//! share a key: one owns the action, the others wait for its result or get
//! the cached value. `task_document_watch` keeps the fingerprints of the
//! task documents under a watched root and turns what was seen on disk
//! into document changes for the active workspaces.
//!
//! Around them stand the parsers and rules of the tool (task inputs,
//! context tokens, configuration paths, branch names, mention search and
//! others), on the text vocabulary of `text`, and its plain value types.
//! Nothing here reads a file, a clock or the environment: callers hand in
//! what they read. The one thing taken from the machine is randomness, for
//! workspace names and tokens.

pub mod agent;
pub mod amp_mode;
pub mod ansi;
pub mod app_state;
pub mod appearance;
pub mod attachments;
pub mod codex;
pub mod codex_bin;
pub mod config_path;
pub mod context_tokens;
pub mod git_branch;
pub mod hashing;
pub mod hex;
pub mod idempotency;
pub mod ids;
pub mod layout;
pub mod mention_search;
pub mod mentions;
pub mod project_avatars;
pub mod reconnect_notice;
pub mod roots;
pub mod server_config;
pub mod shell_env;
pub mod sorting;
pub mod stream_json;
pub mod string_map;
pub mod system_prompts;
pub mod task_document_watch;
pub mod task_input;
pub mod task_prompts;
pub mod text;
pub mod time;
pub mod title;
pub mod workspace_name;
