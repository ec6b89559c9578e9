use luban_core::task_input::{
    default_branch_of, extract_first_github_url, last_agent_reply, looks_like_local_path,
    model_prompt_for_task_intent, parse_github_url, parse_intent_kind, parse_task_input,
    split_repo_full_name, LocalPath, ParsedTaskInput, TaskInputError,
};
use luban_core::task_prompts::{
    default_task_prompt_template, default_task_prompt_templates, TaskIntentKind,
};
use std::path::PathBuf;

fn as_path(local: &LocalPath) -> PathBuf {
    match &local.home {
        Some(home) => PathBuf::from(home).join(&local.rest),
        None => PathBuf::from(&local.rest),
    }
}

#[test]
fn parse_github_repo_url() {
    let parsed = parse_task_input("https://github.com/openai/openai-cookbook", None).unwrap();
    assert_eq!(
        parsed,
        ParsedTaskInput::GitHubRepo {
            full_name: "openai/openai-cookbook".to_owned()
        }
    );
}

#[test]
fn parse_github_issue_url() {
    let parsed =
        parse_task_input("https://github.com/openai/openai-cookbook/issues/123", None).unwrap();
    assert_eq!(
        parsed,
        ParsedTaskInput::GitHubIssue {
            full_name: "openai/openai-cookbook".to_owned(),
            number: 123
        }
    );
}

#[test]
fn parse_github_pr_url() {
    let parsed =
        parse_task_input("https://github.com/openai/openai-cookbook/pull/456", None).unwrap();
    assert_eq!(
        parsed,
        ParsedTaskInput::GitHubPullRequest {
            full_name: "openai/openai-cookbook".to_owned(),
            number: 456
        }
    );
}

#[test]
fn parse_owner_repo_token() {
    let parsed = parse_task_input("openai/openai-cookbook", None).unwrap();
    assert_eq!(
        parsed,
        ParsedTaskInput::GitHubRepo {
            full_name: "openai/openai-cookbook".to_owned()
        }
    );
}

#[test]
fn parse_local_path_token() {
    let parsed = parse_task_input("~/repo", Some("/home/dev")).unwrap();
    match parsed {
        ParsedTaskInput::LocalPath(path) => {
            assert!(as_path(&path).to_string_lossy().contains("repo"));
            assert_eq!(as_path(&path), PathBuf::from("/home/dev/repo"));
        }
        other => panic!("unexpected: {other:?}"),
    }
}

#[test]
fn task_input_errors() {
    assert_eq!(parse_task_input("  ", None).unwrap_err(), TaskInputError::Empty);
    assert_eq!(parse_task_input("  ", None).unwrap_err().to_string(), "task input is empty");
    let bad_url = parse_task_input("see https://github.com/onlyowner please", None).unwrap_err();
    assert_eq!(
        bad_url,
        TaskInputError::UnsupportedUrl("https://github.com/onlyowner".to_owned())
    );
    assert_eq!(
        bad_url.to_string(),
        "unsupported GitHub URL: https://github.com/onlyowner"
    );
    assert_eq!(
        parse_task_input("https://github.com/o/r/issues/x", None).unwrap_err(),
        TaskInputError::UnsupportedUrl("https://github.com/o/r/issues/x".to_owned())
    );
    assert_eq!(parse_task_input("~/repo", None).unwrap_err(), TaskInputError::HomeNotSet);
    assert_eq!(TaskInputError::HomeNotSet.to_string(), "HOME is not set");
    assert_eq!(parse_task_input("just words", None).unwrap_err(), TaskInputError::Unsupported);
    assert_eq!(
        TaskInputError::Unsupported.to_string(),
        "unsupported input: provide a GitHub URL, owner/repo, or a local path"
    );
    assert_eq!(parse_task_input("a/b/c", None).unwrap_err(), TaskInputError::Unsupported);
}

#[test]
fn task_input_order_of_rules() {
    // A URL wins over a path and over owner/repo.
    assert_eq!(
        parse_task_input("fix /tmp/x and o/r, see (https://github.com/a/b/pull/7/files).", None)
            .unwrap(),
        ParsedTaskInput::GitHubPullRequest { full_name: "a/b".to_owned(), number: 7 }
    );
    // A path wins over owner/repo, wherever it stands.
    assert_eq!(
        parse_task_input("o/r then \"./here\";", None).unwrap(),
        ParsedTaskInput::LocalPath(LocalPath { home: None, rest: "./here".to_owned() })
    );
    assert_eq!(
        parse_task_input("please look at (owner/repo/),", None).unwrap(),
        ParsedTaskInput::GitHubRepo { full_name: "owner/repo".to_owned() }
    );
    assert_eq!(
        parse_task_input("C:\\work", None).unwrap(),
        ParsedTaskInput::LocalPath(LocalPath { home: None, rest: "C:\\work".to_owned() })
    );
}

#[test]
fn github_urls_are_found_and_read() {
    assert_eq!(extract_first_github_url("none here"), None);
    assert_eq!(
        extract_first_github_url("a <https://github.com/o/r/> b").as_deref(),
        Some("https://github.com/o/r")
    );
    assert_eq!(
        extract_first_github_url("x https://github.com/").as_deref(),
        Some("https://github.com")
    );
    assert_eq!(parse_github_url("https://github.com"), None);
    assert_eq!(parse_github_url("http://github.com/o/r"), None);
    assert_eq!(
        parse_github_url("https://github.com//o//r//"),
        Some(ParsedTaskInput::GitHubRepo { full_name: "o/r".to_owned() })
    );
    assert_eq!(
        parse_github_url("https://github.com/o/r/tree/main"),
        Some(ParsedTaskInput::GitHubRepo { full_name: "o/r".to_owned() })
    );
    assert_eq!(
        parse_github_url("https://github.com/o/r/issues"),
        Some(ParsedTaskInput::GitHubRepo { full_name: "o/r".to_owned() })
    );
    assert_eq!(
        parse_github_url("https://github.com/o/r/issues/+12/x"),
        Some(ParsedTaskInput::GitHubIssue { full_name: "o/r".to_owned(), number: 12 })
    );
    assert_eq!(parse_github_url("https://github.com/o/r/pull/-1"), None);
    assert_eq!(parse_github_url("https://github.com/o/r/pull/18446744073709551616"), None);
}

#[test]
fn local_paths_are_told_by_their_beginning() {
    for yes in ["~/x", "/x", " ./x", "../x", "c:/x", "Z:\\x"] {
        assert!(looks_like_local_path(yes), "{yes}");
    }
    for no in ["", "~", "x/y", ".x", "..", "c:", "c:x", "1:/x", "é:/x"] {
        assert!(!looks_like_local_path(no), "{no}");
    }
}

#[test]
fn intents_are_named() {
    assert_eq!(parse_intent_kind(" Fix_Issue "), TaskIntentKind::FixIssue);
    assert_eq!(parse_intent_kind("implement_feature"), TaskIntentKind::ImplementFeature);
    assert_eq!(parse_intent_kind("REVIEW_PULL_REQUEST"), TaskIntentKind::ReviewPullRequest);
    assert_eq!(
        parse_intent_kind("resolve_pull_request_conflicts"),
        TaskIntentKind::ResolvePullRequestConflicts
    );
    assert_eq!(parse_intent_kind("add_project"), TaskIntentKind::AddProject);
    assert_eq!(parse_intent_kind("other"), TaskIntentKind::Other);
    assert_eq!(parse_intent_kind("fix issue"), TaskIntentKind::Other);
}

#[test]
fn draft_prompt_holds_input_and_context() {
    let prompt = model_prompt_for_task_intent("INPUT", "{\"kind\":\"repo\"}");
    assert!(prompt.starts_with("You are generating a task draft for a local, single-user developer tool.\n"));
    assert!(prompt.contains("\nInput:\nINPUT\n\nRetrieved context (JSON):\n{\"kind\":\"repo\"}\n\nOutput JSON schema:\n{\n  \"intent_kind\""));
    assert!(prompt.ends_with("\"prompt\": \"<a runnable first user message for the coding agent>\"\n}\n"));
    assert_eq!(model_prompt_for_task_intent("", "").len(), 735);
}

#[test]
fn task_prompts_begin_with_the_header() {
    let all = default_task_prompt_templates();
    assert_eq!(all.len(), 6);
    let kinds: Vec<TaskIntentKind> = all.iter().map(|(k, _)| *k).collect();
    assert_eq!(
        kinds,
        vec![
            TaskIntentKind::FixIssue,
            TaskIntentKind::ImplementFeature,
            TaskIntentKind::ReviewPullRequest,
            TaskIntentKind::ResolvePullRequestConflicts,
            TaskIntentKind::AddProject,
            TaskIntentKind::Other
        ]
    );
    for (kind, template) in &all {
        assert_eq!(template, &default_task_prompt_template(*kind));
        assert!(template.starts_with("You are an AI coding agent working inside a git worktree.\n"));
        assert!(template.contains("\nInstructions:\n- Goal: "));
    }
    assert!(default_task_prompt_template(TaskIntentKind::FixIssue)
        .ends_with("- Output: root cause, fix summary, and verification.\n"));
    assert!(default_task_prompt_template(TaskIntentKind::Other).contains("{{task_input}}"));
    // The header keeps its line breaks and its indentation.
    let header = default_task_prompt_template(TaskIntentKind::AddProject);
    assert!(header.contains("or workflow.\n- Prefer the smallest"));
    assert!(header.contains("COMPLEX.\n  - SIMPLE: the goal is clear"));
    assert!(header.contains("large changes.\n  - Share your root-cause analysis"));
    assert!(header.contains(&format!("assess whether {} {} is SIMPLE", "this", "task")));
    let lengths: Vec<usize> = all.iter().map(|(_, template)| template.len()).collect();
    assert_eq!(lengths, vec![1873, 1807, 1817, 1772, 1725, 1737]);
}

#[test]
fn task_drafts_are_put_together_by_rule() {
    let messages = vec![" first ".to_owned(), "".to_owned(), "last".to_owned(), "  \n".to_owned()];
    assert_eq!(last_agent_reply(&messages).as_deref(), Some("last"));
    assert_eq!(last_agent_reply(&vec![" kept as it is ".to_owned()]).as_deref(), Some(" kept as it is "));
    assert_eq!(last_agent_reply(&vec!["".to_owned(), " ".to_owned()]), None);
    assert_eq!(last_agent_reply(&Vec::new()), None);
    assert_eq!(
        split_repo_full_name("owner/name"),
        Some(("owner".to_owned(), "name".to_owned()))
    );
    assert_eq!(split_repo_full_name("/"), Some(("".to_owned(), "".to_owned())));
    assert_eq!(split_repo_full_name("owner"), None);
    assert_eq!(split_repo_full_name("a/b/c"), None);
    assert_eq!(default_branch_of(Some(" main ".to_owned())).as_deref(), Some(" main "));
    assert_eq!(default_branch_of(Some("  ".to_owned())), None);
    assert_eq!(default_branch_of(None), None);
}
