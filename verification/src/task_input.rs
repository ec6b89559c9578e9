//! What a user types to start a task: a GitHub URL, `owner/repo`, or a
//! local path.

use crate::task_prompts::TaskIntentKind;
use crate::text::{
    char_is_ascii_alphabetic, chars_eq_str, chars_first_of_from, chars_find_from, chars_of,
    chars_parse_u64, chars_split_by, chars_split_whitespace, chars_start_with,
    chars_start_with_str, chars_to_ascii_lowercase, chars_trim_end_of, chars_trim_of, class_of,
    find, first_of_from, is_ascii_alphabetic, keep_nonempty, nonempty_pieces, opt_view, parse_u64,
    slice_chars, split_by, split_whitespace, starts_with, string_of, to_ascii_lowercase, trim,
    trim_chars, trim_end_of, trim_of, views, whitespace_and, CharSet,
};
use vstd::prelude::*;

verus! {

/// A path on this machine: `rest` below the home directory `home`, or
/// `rest` itself where `home` is none.
#[derive(Clone, Debug, PartialEq, Eq)]
pub struct LocalPath {
    pub home: Option<String>,
    pub rest: String,
}

#[derive(Clone, Debug, PartialEq, Eq)]
pub enum ParsedTaskInput {
    LocalPath(LocalPath),
    GitHubRepo { full_name: String },
    GitHubIssue { full_name: String, number: u64 },
    GitHubPullRequest { full_name: String, number: u64 },
}

/// The mathematical value of a `ParsedTaskInput`.
pub enum TaskInput {
    LocalPath { home: Option<Seq<char>>, rest: Seq<char> },
    GitHubRepo { full_name: Seq<char> },
    GitHubIssue { full_name: Seq<char>, number: u64 },
    GitHubPullRequest { full_name: Seq<char>, number: u64 },
}

impl View for ParsedTaskInput {
    type V = TaskInput;

    open spec fn view(&self) -> TaskInput {
        match self {
            ParsedTaskInput::LocalPath(path) => TaskInput::LocalPath {
                home: match path.home {
                    Some(home) => Some(home@),
                    None => None,
                },
                rest: path.rest@,
            },
            ParsedTaskInput::GitHubRepo { full_name } => TaskInput::GitHubRepo {
                full_name: full_name@,
            },
            ParsedTaskInput::GitHubIssue { full_name, number } => TaskInput::GitHubIssue {
                full_name: full_name@,
                number: *number,
            },
            ParsedTaskInput::GitHubPullRequest {
                full_name,
                number,
            } => TaskInput::GitHubPullRequest { full_name: full_name@, number: *number },
        }
    }
}

/// Why a task input was refused.
#[derive(Clone, Debug, PartialEq, Eq)]
pub enum TaskInputError {
    Empty,
    UnsupportedUrl(String),
    HomeNotSet,
    Unsupported,
}

/// The mathematical value of a `TaskInputError`.
pub enum InputError {
    Empty,
    UnsupportedUrl(Seq<char>),
    HomeNotSet,
    Unsupported,
}

impl View for TaskInputError {
    type V = InputError;

    open spec fn view(&self) -> InputError {
        match self {
            TaskInputError::Empty => InputError::Empty,
            TaskInputError::UnsupportedUrl(url) => InputError::UnsupportedUrl(url@),
            TaskInputError::HomeNotSet => InputError::HomeNotSet,
            TaskInputError::Unsupported => InputError::Unsupported,
        }
    }
}

impl TaskInputError {
    pub open spec fn message(self) -> Seq<char> {
        match self {
            TaskInputError::Empty => "task input is empty"@,
            TaskInputError::UnsupportedUrl(url) => "unsupported GitHub URL: "@ + url@,
            TaskInputError::HomeNotSet => "HOME is not set"@,
            TaskInputError::Unsupported => "unsupported input: provide a GitHub URL, owner/repo, or a local path"@,
        }
    }

    /// The error in words.
    pub fn to_string(&self) -> (text: String)
        ensures
            text@ == self.message(),
    {
        match self {
            TaskInputError::Empty => "task input is empty".to_owned(),
            TaskInputError::UnsupportedUrl(url) => {
                let mut text = "unsupported GitHub URL: ".to_owned();
                text.append(url.as_str());
                text
            },
            TaskInputError::HomeNotSet => "HOME is not set".to_owned(),
            TaskInputError::Unsupported => "unsupported input: provide a GitHub URL, owner/repo, or a local path".to_owned(),
        }
    }
}

pub open spec fn github_url_prefix() -> Seq<char> {
    "https://github.com/"@
}

/// The characters that end a URL in running text, besides white space.
pub open spec fn url_end_class() -> crate::text::CharClass {
    whitespace_and("\"')]>"@)
}

/// The first GitHub URL in `input`: from the first `https://github.com/` up
/// to the next white space, quote, or closing bracket, without slashes at
/// its end.
pub open spec fn first_github_url(input: Seq<char>) -> Option<Seq<char>> {
    match find(input, github_url_prefix()) {
        None => None,
        Some(start) => {
            let rest = input.skip(start);
            let end = match first_of_from(rest, url_end_class(), 0) {
                Some(end) => end,
                None => rest.len() as int,
            };
            Some(trim_end_of(rest.take(end), class_of("/"@)))
        },
    }
}

fn chars_first_github_url(input: &Vec<char>) -> (url: Option<Vec<char>>)
    ensures
        match url {
            Some(url) => first_github_url(input@) == Some(url@),
            None => first_github_url(input@) is None,
        },
{
    let needle = chars_of("https://github.com/");
    let start = match chars_find_from(input, &needle, 0) {
        Some(at) => at,
        None => {
            return None;
        },
    };
    let rest = slice_chars(input, start, input.len());
    let enders = CharSet::whitespace_and("\"')]>");
    let end = match chars_first_of_from(&rest, &enders, 0) {
        Some(at) => at,
        None => rest.len(),
    };
    let head = slice_chars(&rest, 0, end);
    let slash = CharSet::of("/");
    Some(chars_trim_end_of(&head, &slash))
}

pub fn extract_first_github_url(input: &str) -> (url: Option<String>)
    ensures
        match url {
            Some(url) => first_github_url(input@) == Some(url@),
            None => first_github_url(input@) is None,
        },
{
    let chars = chars_of(input);
    match chars_first_github_url(&chars) {
        Some(url) => Some(string_of(&url)),
        None => None,
    }
}

/// `owner/repo`, from the first two segments of a URL's path.
pub open spec fn full_name_of(parts: Seq<Seq<char>>) -> Seq<char> {
    parts[0] + seq!['/'] + parts[1]
}

/// What a GitHub URL points at. Slashes at its end and empty segments of
/// its path do not count. Two segments name a repository; `issues/<n>` and
/// `pull/<n>` behind them name an issue and a pull request, and nothing
/// where `<n>` is no number; anything else behind them is passed over.
pub open spec fn github_target(url: Seq<char>) -> Option<TaskInput> {
    let url = trim_end_of(url, class_of("/"@));
    if !starts_with(url, github_url_prefix()) {
        None
    } else {
        let parts = nonempty_pieces(
            split_by(url.skip(github_url_prefix().len() as int), class_of("/"@)),
        );
        if parts.len() < 2 {
            None
        } else if parts.len() >= 4 && parts[2] == "issues"@ {
            match parse_u64(parts[3]) {
                Some(number) => Some(
                    TaskInput::GitHubIssue { full_name: full_name_of(parts), number },
                ),
                None => None,
            }
        } else if parts.len() >= 4 && parts[2] == "pull"@ {
            match parse_u64(parts[3]) {
                Some(number) => Some(
                    TaskInput::GitHubPullRequest { full_name: full_name_of(parts), number },
                ),
                None => None,
            }
        } else {
            Some(TaskInput::GitHubRepo { full_name: full_name_of(parts) })
        }
    }
}

fn chars_parse_github_url(url: &Vec<char>) -> (r: Option<ParsedTaskInput>)
    ensures
        match r {
            Some(parsed) => github_target(url@) == Some(parsed@),
            None => github_target(url@) is None,
        },
{
    let slash = CharSet::of("/");
    let url = chars_trim_end_of(url, &slash);
    let prefix = chars_of("https://github.com/");
    if !chars_start_with(&url, &prefix) {
        return None;
    }
    let path = slice_chars(&url, prefix.len(), url.len());
    let parts = keep_nonempty(chars_split_by(&path, &slash));
    if parts.len() < 2 {
        return None;
    }
    let ghost names = views(parts@);
    assert(names[0] == parts@[0]@ && names[1] == parts@[1]@);
    let mut name: Vec<char> = parts[0].clone();
    name.push('/');
    let mut i: usize = 0;
    while i < parts[1].len()
        invariant
            parts@.len() >= 2,
            i <= parts@[1]@.len(),
            name@ == parts@[0]@ + seq!['/'] + parts@[1]@.take(i as int),
        decreases parts@[1]@.len() - i,
    {
        name.push(parts[1][i]);
        i = i + 1;
    }
    assert(parts@[1]@.take(i as int) =~= parts@[1]@);
    let full_name = string_of(&name);
    if parts.len() >= 4 {
        assert(names[2] == parts@[2]@ && names[3] == parts@[3]@);
        if chars_eq_str(&parts[2], "issues") {
            return match chars_parse_u64(&parts[3]) {
                Some(number) => Some(ParsedTaskInput::GitHubIssue { full_name, number }),
                None => None,
            };
        }
        if chars_eq_str(&parts[2], "pull") {
            return match chars_parse_u64(&parts[3]) {
                Some(number) => Some(ParsedTaskInput::GitHubPullRequest { full_name, number }),
                None => None,
            };
        }
    }
    Some(ParsedTaskInput::GitHubRepo { full_name })
}

pub fn parse_github_url(url: &str) -> (r: Option<ParsedTaskInput>)
    ensures
        match r {
            Some(parsed) => github_target(url@) == Some(parsed@),
            None => github_target(url@) is None,
        },
{
    let chars = chars_of(url);
    chars_parse_github_url(&chars)
}

/// Whether `token`, once trimmed, looks like a path on this machine: it
/// begins with `~/`, `/`, `./` or `../`, or with a drive letter, a colon
/// and a slash or backslash.
pub open spec fn local_path_like(token: Seq<char>) -> bool {
    let t = trim(token);
    ||| starts_with(t, "~/"@)
    ||| (t.len() > 0 && t[0] == '/')
    ||| starts_with(t, "./"@)
    ||| starts_with(t, "../"@)
    ||| (t.len() >= 3 && is_ascii_alphabetic(t[0]) && t[1] == ':' && (t[2] == '\\' || t[2]
        == '/'))
}

fn chars_look_like_local_path(token: &Vec<char>) -> (r: bool)
    ensures
        r == local_path_like(token@),
{
    let t = trim_chars(token);
    if chars_start_with_str(&t, "~/") || (t.len() > 0 && t[0] == '/') || chars_start_with_str(
        &t,
        "./",
    ) || chars_start_with_str(&t, "../") {
        return true;
    }
    t.len() >= 3 && t[1] == ':' && (t[2] == '\\' || t[2] == '/') && char_is_ascii_alphabetic(t[0])
}

pub fn looks_like_local_path(token: &str) -> (r: bool)
    ensures
        r == local_path_like(token@),
{
    let chars = chars_of(token);
    chars_look_like_local_path(&chars)
}

pub open spec fn tilde_prefix() -> Seq<char> {
    "~/"@
}

/// The path that `path` stands for: what follows `~/` below the home
/// directory, where it begins so; itself otherwise. An error where the
/// home directory is asked for and not known.
pub open spec fn tilde_expanded(path: Seq<char>, home: Option<Seq<char>>) -> Result<
    TaskInput,
    InputError,
> {
    if starts_with(path, tilde_prefix()) {
        match home {
            Some(home) => Ok(
                TaskInput::LocalPath {
                    home: Some(home),
                    rest: path.skip(tilde_prefix().len() as int),
                },
            ),
            None => Err(InputError::HomeNotSet),
        }
    } else {
        Ok(TaskInput::LocalPath { home: None, rest: path })
    }
}

fn expand_tilde(path: &Vec<char>, home: Option<&str>) -> (r: Result<LocalPath, TaskInputError>)
    ensures
        match r {
            Ok(local) => tilde_expanded(path@, opt_view(home)) == Ok::<
                TaskInput,
                InputError,
            >(ParsedTaskInput::LocalPath(local)@),
            Err(error) => tilde_expanded(path@, opt_view(home)) == Err::<
                TaskInput,
                InputError,
            >(error@),
        },
{
    let tilde = chars_of("~/");
    if chars_start_with(path, &tilde) {
        match home {
            Some(home) => {
                let rest = slice_chars(path, tilde.len(), path.len());
                Ok(LocalPath { home: Some(home.to_owned()), rest: string_of(&rest) })
            },
            None => Err(TaskInputError::HomeNotSet),
        }
    } else {
        Ok(LocalPath { home: None, rest: string_of(path) })
    }
}

/// The characters that are taken off the ends of a word of the input.
pub open spec fn token_trim_class() -> crate::text::CharClass {
    class_of("\"'(),;"@)
}

/// The words of `input`, each without quotes, brackets, commas and
/// semicolons at its ends.
pub open spec fn input_tokens(input: Seq<char>) -> Seq<Seq<char>> {
    let words = split_whitespace(input);
    Seq::new(words.len(), |i: int| trim_of(words[i], token_trim_class()))
}

/// The first of `tokens` that is not empty and looks like a local path.
pub open spec fn first_local_path(tokens: Seq<Seq<char>>) -> Option<Seq<char>>
    decreases tokens.len(),
{
    if tokens.len() == 0 {
        None
    } else if tokens[0].len() > 0 && local_path_like(tokens[0]) {
        Some(tokens[0])
    } else {
        first_local_path(tokens.drop_first())
    }
}

/// Whether `token` is `owner/repo`: without slashes at its end it has
/// exactly two segments, and neither is empty.
pub open spec fn owner_repo_like(token: Seq<char>) -> bool {
    let parts = split_by(trim_end_of(token, class_of("/"@)), class_of("/"@));
    parts.len() == 2 && parts[0].len() > 0 && parts[1].len() > 0
}

/// The first of `tokens` that is not empty and is `owner/repo`, without
/// slashes at its end.
pub open spec fn first_owner_repo(tokens: Seq<Seq<char>>) -> Option<Seq<char>>
    decreases tokens.len(),
{
    if tokens.len() == 0 {
        None
    } else if tokens[0].len() > 0 && owner_repo_like(tokens[0]) {
        Some(trim_end_of(tokens[0], class_of("/"@)))
    } else {
        first_owner_repo(tokens.drop_first())
    }
}

/// What the input of a task names. A GitHub URL in it decides, and is an
/// error where it points at nothing known. Else the first word that looks
/// like a local path decides; else the first word that is `owner/repo`.
pub open spec fn parsed_task_input(input: Seq<char>, home: Option<Seq<char>>) -> Result<
    TaskInput,
    InputError,
> {
    let text = trim(input);
    if text.len() == 0 {
        Err(InputError::Empty)
    } else {
        match first_github_url(text) {
            Some(url) => match github_target(url) {
                Some(target) => Ok(target),
                None => Err(InputError::UnsupportedUrl(url)),
            },
            None => match first_local_path(input_tokens(text)) {
                Some(token) => tilde_expanded(token, home),
                None => match first_owner_repo(input_tokens(text)) {
                    Some(full_name) => Ok(TaskInput::GitHubRepo { full_name }),
                    None => Err(InputError::Unsupported),
                },
            },
        }
    }
}

fn tokens_of_input(text: &Vec<char>) -> (tokens: Vec<Vec<char>>)
    ensures
        views(tokens@) == input_tokens(text@),
{
    let words = chars_split_whitespace(text);
    let set = CharSet::of("\"'(),;");
    let mut tokens: Vec<Vec<char>> = Vec::new();
    let mut i: usize = 0;
    while i < words.len()
        invariant
            i <= words.len(),
            views(words@) == split_whitespace(text@),
            set@ == token_trim_class(),
            tokens@.len() == i,
            forall|j: int|
                0 <= j < i ==> (#[trigger] tokens@[j])@ == trim_of(
                    views(words@)[j],
                    token_trim_class(),
                ),
        decreases words.len() - i,
    {
        assert(views(words@)[i as int] == words@[i as int]@);
        tokens.push(chars_trim_of(&words[i], &set));
        i = i + 1;
    }
    assert(views(tokens@) =~= input_tokens(text@));
    tokens
}

/// Parses the input of a task. `home` is the home directory, if it is
/// known; it is asked for only where the input names a path below it.
pub fn parse_task_input(input: &str, home: Option<&str>) -> (r: Result<
    ParsedTaskInput,
    TaskInputError,
>)
    ensures
        match r {
            Ok(parsed) => parsed_task_input(input@, opt_view(home)) == Ok::<
                TaskInput,
                InputError,
            >(parsed@),
            Err(error) => parsed_task_input(input@, opt_view(home)) == Err::<
                TaskInput,
                InputError,
            >(error@),
        },
{
    let chars = chars_of(input);
    let text = trim_chars(&chars);
    if text.len() == 0 {
        return Err(TaskInputError::Empty);
    }
    if let Some(url) = chars_first_github_url(&text) {
        return match chars_parse_github_url(&url) {
            Some(parsed) => Ok(parsed),
            None => Err(TaskInputError::UnsupportedUrl(string_of(&url))),
        };
    }
    let tokens = tokens_of_input(&text);
    let ghost all = views(tokens@);
    let mut i: usize = 0;
    assert(all.skip(0) =~= all);
    while i < tokens.len()
        invariant
            i <= tokens.len(),
            all == views(tokens@),
            all == input_tokens(text@),
            text@ == trim(input@),
            text@.len() > 0,
            first_github_url(text@) is None,
            first_local_path(all.skip(i as int)) == first_local_path(all),
        decreases tokens.len() - i,
    {
        let token = &tokens[i];
        assert(all.skip(i as int)[0] == token@);
        assert(all.skip(i as int).drop_first() =~= all.skip(i as int + 1));
        if token.len() > 0 && chars_look_like_local_path(token) {
            return match expand_tilde(token, home) {
                Ok(local) => Ok(ParsedTaskInput::LocalPath(local)),
                Err(error) => Err(error),
            };
        }
        i = i + 1;
    }
    let slash = CharSet::of("/");
    let mut k: usize = 0;
    while k < tokens.len()
        invariant
            k <= tokens.len(),
            all == views(tokens@),
            all == input_tokens(text@),
            text@ == trim(input@),
            text@.len() > 0,
            first_github_url(text@) is None,
            slash@ == class_of("/"@),
            first_local_path(all) is None,
            first_owner_repo(all.skip(k as int)) == first_owner_repo(all),
        decreases tokens.len() - k,
    {
        let token = &tokens[k];
        assert(all.skip(k as int)[0] == token@);
        assert(all.skip(k as int).drop_first() =~= all.skip(k as int + 1));
        if token.len() > 0 {
            let name = chars_trim_end_of(token, &slash);
            let parts = chars_split_by(&name, &slash);
            if parts.len() == 2 {
                assert(views(parts@)[0] == parts@[0]@ && views(parts@)[1] == parts@[1]@);
                if parts[0].len() > 0 && parts[1].len() > 0 {
                    return Ok(ParsedTaskInput::GitHubRepo { full_name: string_of(&name) });
                }
            }
        }
        k = k + 1;
    }
    Err(TaskInputError::Unsupported)
}

/// The intent that `raw` names, once trimmed and in lower case; `Other`
/// for anything unknown.
pub open spec fn intent_named(raw: Seq<char>) -> TaskIntentKind {
    let name = to_ascii_lowercase(trim(raw));
    if name == "fix_issue"@ {
        TaskIntentKind::FixIssue
    } else if name == "implement_feature"@ {
        TaskIntentKind::ImplementFeature
    } else if name == "review_pull_request"@ {
        TaskIntentKind::ReviewPullRequest
    } else if name == "resolve_pull_request_conflicts"@ {
        TaskIntentKind::ResolvePullRequestConflicts
    } else if name == "add_project"@ {
        TaskIntentKind::AddProject
    } else {
        TaskIntentKind::Other
    }
}

pub fn parse_intent_kind(raw: &str) -> (kind: TaskIntentKind)
    ensures
        kind == intent_named(raw@),
{
    let chars = chars_of(raw);
    let name = chars_to_ascii_lowercase(&trim_chars(&chars));
    if chars_eq_str(&name, "fix_issue") {
        TaskIntentKind::FixIssue
    } else if chars_eq_str(&name, "implement_feature") {
        TaskIntentKind::ImplementFeature
    } else if chars_eq_str(&name, "review_pull_request") {
        TaskIntentKind::ReviewPullRequest
    } else if chars_eq_str(&name, "resolve_pull_request_conflicts") {
        TaskIntentKind::ResolvePullRequestConflicts
    } else if chars_eq_str(&name, "add_project") {
        TaskIntentKind::AddProject
    } else {
        TaskIntentKind::Other
    }
}


/// What the prompt for a task draft begins with, up to the input.
pub const DRAFT_PROMPT_HEAD: &'static str = r#"You are generating a task draft for a local, single-user developer tool.

Rules:
- Do NOT run commands.
- Do NOT modify files.
- Output ONLY a single JSON object, no markdown, no extra text.
- If the context is insufficient to decide, set intent_kind="other" and explain what is missing in summary, but still produce a safe prompt that asks for the missing info.

Allowed intent_kind values:
- fix_issue
- implement_feature
- review_pull_request
- resolve_pull_request_conflicts
- add_project
- other

Input:
"#;

/// What stands between the input and the context.
pub const DRAFT_PROMPT_MIDDLE: &'static str = r#"

Retrieved context (JSON):
"#;

/// What the prompt ends with, behind the context.
pub const DRAFT_PROMPT_TAIL: &'static str = r#"

Output JSON schema:
{
  "intent_kind": "<one of the allowed values>",
  "summary": "<2-6 sentences, concrete and actionable>",
  "prompt": "<a runnable first user message for the coding agent>"
}
"#;

/// The prompt that asks a model for the draft of a task, given the input
/// of the user and the context that was gathered, as JSON.
pub open spec fn draft_prompt(input: Seq<char>, context_json: Seq<char>) -> Seq<char> {
    DRAFT_PROMPT_HEAD@ + input + DRAFT_PROMPT_MIDDLE@ + context_json + DRAFT_PROMPT_TAIL@
}

pub fn model_prompt_for_task_intent(input: &str, context_json: &str) -> (prompt: String)
    ensures
        prompt@ == draft_prompt(input@, context_json@),
{
    let mut prompt = DRAFT_PROMPT_HEAD.to_owned();
    prompt.append(input);
    prompt.append(DRAFT_PROMPT_MIDDLE);
    prompt.append(context_json);
    prompt.append(DRAFT_PROMPT_TAIL);
    prompt
}


/// The last of `messages` that is not blank.
pub open spec fn last_reply(messages: Seq<String>) -> Option<Seq<char>>
    decreases messages.len(),
{
    if messages.len() == 0 {
        None
    } else if trim(messages.last()@).len() > 0 {
        Some(messages.last()@)
    } else {
        last_reply(messages.drop_last())
    }
}

/// Picks the answer of an agent among the messages of its turn: the last
/// one that is not blank, as it is.
pub fn last_agent_reply(messages: &Vec<String>) -> (reply: Option<String>)
    ensures
        match reply {
            Some(text) => last_reply(messages@) == Some(text@),
            None => last_reply(messages@) is None,
        },
{
    let mut i: usize = messages.len();
    assert(messages@.take(i as int) =~= messages@);
    while i > 0
        invariant
            i <= messages.len(),
            last_reply(messages@.take(i as int)) == last_reply(messages@),
        decreases i,
    {
        let message = &messages[i - 1];
        assert(messages@.take(i as int).last() == messages@[i as int - 1]);
        assert(messages@.take(i as int).drop_last() =~= messages@.take(i as int - 1));
        let chars = chars_of(message.as_str());
        if trim_chars(&chars).len() > 0 {
            return Some(message.clone());
        }
        i = i - 1;
    }
    None
}

/// The owner and the name of the repository `full_name`, which must be
/// exactly `owner/name`.
pub open spec fn owner_and_name(full_name: Seq<char>) -> Option<(Seq<char>, Seq<char>)> {
    let parts = split_by(full_name, class_of("/"@));
    if parts.len() == 2 {
        Some((parts[0], parts[1]))
    } else {
        None
    }
}

pub fn split_repo_full_name(full_name: &str) -> (r: Option<(String, String)>)
    ensures
        match r {
            Some((owner, name)) => owner_and_name(full_name@) == Some((owner@, name@)),
            None => owner_and_name(full_name@) is None,
        },
{
    let chars = chars_of(full_name);
    let slash = CharSet::of("/");
    let parts = chars_split_by(&chars, &slash);
    if parts.len() != 2 {
        return None;
    }
    assert(views(parts@)[0] == parts@[0]@ && views(parts@)[1] == parts@[1]@);
    Some((string_of(&parts[0]), string_of(&parts[1])))
}

/// The default branch of a repository as GitHub names it; none where the
/// name is blank.
pub fn default_branch_of(name: Option<String>) -> (branch: Option<String>)
    ensures
        branch == match name {
            Some(text) if trim(text@).len() > 0 => Some(text),
            _ => None,
        },
{
    match name {
        Some(text) => {
            let chars = chars_of(text.as_str());
            if trim_chars(&chars).len() > 0 {
                Some(text)
            } else {
                None
            }
        },
        None => None,
    }
}

} // verus!
