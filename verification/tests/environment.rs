use luban_core::codex_bin::{
    clean_path_tokens, codex_executable, default_codex_candidates, keep_flagged,
    looks_like_codex_executable_name, parse_absolute_path_tokens, shell_lookup_args,
    DefaultCodexCandidates,
};
use luban_core::hex::{hex_char, hex_encode};
use luban_core::roots::{
    resolve_agent_root, resolve_amp_root, resolve_codex_root, resolve_luban_root,
};
use luban_core::server_config::{AuthConfig, AuthMode, ServerConfig};
use luban_core::shell_env::{
    apply_runtime_shell_env_defaults, apply_user_shell_env_vars, default_shell, fix_path_env,
    parse_shell_env, runtime_shell_env_vars, shell_env_command, ShellEnvAction,
    SHELL_ENV_DELIMITER,
};
use luban_core::stream_json::{extract_string_field, tool_name_key};
use luban_core::task_input::LocalPath;
use luban_core::time::{
    format_relative_age, u64_to_decimal, unix_seconds, unix_seconds_opt, unix_seconds_or_zero,
    EpochTime,
};
use std::path::{Path, PathBuf};
use std::time::{Duration, SystemTime, UNIX_EPOCH};

fn as_path(local: &LocalPath) -> PathBuf {
    match &local.home {
        Some(home) => PathBuf::from(home).join(&local.rest),
        None => PathBuf::from(&local.rest),
    }
}

fn epoch_time(time: SystemTime) -> EpochTime {
    match time.duration_since(UNIX_EPOCH) {
        Ok(after) => EpochTime {
            before_epoch: false,
            secs: after.as_secs(),
            nanos: after.subsec_nanos(),
        },
        Err(before) => EpochTime {
            before_epoch: true,
            secs: before.duration().as_secs(),
            nanos: before.duration().subsec_nanos(),
        },
    }
}

fn file_name(path: &str) -> Option<String> {
    Path::new(path)
        .file_name()
        .map(|name| name.to_string_lossy().to_string())
}

#[test]
fn default_candidates_are_test_only_in_unit_tests() {
    let candidates: Vec<_> = default_codex_candidates(true, Some("/home/dev"))
        .collect()
        .iter()
        .map(as_path)
        .collect();
    assert_eq!(candidates, vec![PathBuf::from("codex")]);
}

#[test]
fn codex_executable_prefers_env_override() {
    assert_eq!(
        PathBuf::from(codex_executable(
            Some("my-codex".to_owned()),
            Some("/usr/local/bin/codex".to_owned()),
            None
        )),
        PathBuf::from("my-codex")
    );
}

#[test]
fn parse_absolute_path_tokens_ignores_non_paths() {
    let parsed: Vec<PathBuf> =
        parse_absolute_path_tokens("codex is /opt/homebrew/bin/codex and alias codex='x'")
            .into_iter()
            .map(PathBuf::from)
            .collect();
    assert_eq!(parsed, vec![PathBuf::from("/opt/homebrew/bin/codex")]);
}

#[test]
fn looks_like_codex_executable_name_only_accepts_codex_binary_names() {
    assert!(looks_like_codex_executable_name(
        file_name("/opt/homebrew/bin/codex").as_deref()
    ));
    assert!(looks_like_codex_executable_name(
        file_name("C:/tools/codex.exe").as_deref()
    ));
    assert!(!looks_like_codex_executable_name(
        file_name("/usr/bin/python3").as_deref()
    ));
    assert!(!looks_like_codex_executable_name(
        file_name("/opt/homebrew/bin/codex-beta").as_deref()
    ));
}

#[test]
fn codex_candidates_come_in_order() {
    let all: Vec<PathBuf> = default_codex_candidates(false, Some("/home/dev"))
        .collect()
        .iter()
        .map(as_path)
        .collect();
    assert_eq!(
        all,
        vec![
            PathBuf::from("/opt/homebrew/bin/codex"),
            PathBuf::from("/usr/local/bin/codex"),
            PathBuf::from("/home/dev/.cargo/bin/codex"),
            PathBuf::from("codex"),
        ]
    );
    let without_home: Vec<PathBuf> = DefaultCodexCandidates::new(None)
        .collect()
        .iter()
        .map(as_path)
        .collect();
    assert_eq!(
        without_home,
        vec![
            PathBuf::from("/opt/homebrew/bin/codex"),
            PathBuf::from("/usr/local/bin/codex"),
            PathBuf::from("codex"),
        ]
    );
    let mut it = DefaultCodexCandidates::test_only();
    assert_eq!(it.next().map(|p| p.rest), Some("codex".to_owned()));
    assert_eq!(it.next(), None);
    assert_eq!(it.next(), None);
    let mut worn = DefaultCodexCandidates { idx: 255, cargo_home: None };
    assert_eq!(worn.next(), None);
    assert_eq!(worn.idx, 255);
}

#[test]
fn codex_executable_falls_back_in_order() {
    assert_eq!(codex_executable(None, Some("a".to_owned()), Some("b".to_owned())), "a");
    assert_eq!(codex_executable(None, None, Some("b".to_owned())), "b");
    assert_eq!(codex_executable(None, None, None), "codex");
    assert!(!looks_like_codex_executable_name(None));
    assert!(looks_like_codex_executable_name(Some("CODEX.EXE")));
}

#[test]
fn shell_arguments_follow_the_kind_of_shell() {
    assert_eq!(shell_lookup_args("zsh", "x"), vec!["-l", "-i", "-c", "x"]);
    assert_eq!(shell_lookup_args("BASH.exe", "x"), vec!["-l", "-i", "-c", "x"]);
    assert_eq!(shell_lookup_args("pwsh", "x"), vec!["-Command", "x"]);
    assert_eq!(shell_lookup_args("PowerShell.exe", "x"), vec!["-Command", "x"]);
    assert_eq!(shell_lookup_args("cmd.exe", "x"), vec!["/C", "x"]);
    assert_eq!(shell_lookup_args("CMD", "x"), vec!["/C", "x"]);
    assert_eq!(shell_lookup_args("cmdx", "x"), vec!["-c", "x"]);
    assert_eq!(shell_lookup_args("", "x"), vec!["-c", "x"]);
    assert_eq!(shell_lookup_args("fish", "command -v codex"), vec!["-c", "command -v codex"]);
}

#[test]
fn path_tokens_are_cleaned_and_picked() {
    assert_eq!(
        clean_path_tokens("  'a',  \"b\";  `c`: ::  d  "),
        vec!["a", "b", "c", "", "d"]
    );
    assert_eq!(clean_path_tokens(""), Vec::<String>::new());
    let tokens = vec!["a".to_owned(), "b".to_owned(), "c".to_owned()];
    assert_eq!(keep_flagged(&tokens, &vec![true, false, true]), vec!["a", "c"]);
    assert_eq!(keep_flagged(&tokens, &vec![false, false, false]), Vec::<String>::new());
}

#[test]
fn unix_seconds_handles_before_and_after_epoch() {
    assert_eq!(unix_seconds(epoch_time(UNIX_EPOCH)), Some(0));
    assert_eq!(unix_seconds(epoch_time(UNIX_EPOCH + Duration::from_secs(1))), Some(1));
    assert_eq!(unix_seconds(epoch_time(UNIX_EPOCH - Duration::from_secs(1))), None);
}

#[test]
fn unix_seconds_helpers_handle_optional_values() {
    assert_eq!(unix_seconds_opt(None), None);
    assert_eq!(unix_seconds_opt(Some(epoch_time(UNIX_EPOCH))), Some(0));
    assert_eq!(unix_seconds_or_zero(None), 0);
    assert_eq!(
        unix_seconds_or_zero(Some(epoch_time(UNIX_EPOCH + Duration::from_secs(3)))),
        3
    );
}

#[test]
fn times_before_the_epoch_count_as_zero() {
    let before = EpochTime { before_epoch: true, secs: 0, nanos: 1 };
    assert_eq!(unix_seconds(before), None);
    assert_eq!(unix_seconds_or_zero(Some(before)), 0);
    let late = EpochTime { before_epoch: false, secs: 9, nanos: 999_999_999 };
    assert_eq!(unix_seconds(late), Some(9));
}

#[test]
fn ages_are_worded() {
    assert_eq!(format_relative_age(None), None);
    assert_eq!(format_relative_age(Some(0)).as_deref(), Some("just now"));
    assert_eq!(format_relative_age(Some(59)).as_deref(), Some("just now"));
    assert_eq!(format_relative_age(Some(60)).as_deref(), Some("1m ago"));
    assert_eq!(format_relative_age(Some(3599)).as_deref(), Some("59m ago"));
    assert_eq!(format_relative_age(Some(3600)).as_deref(), Some("1h ago"));
    assert_eq!(format_relative_age(Some(86399)).as_deref(), Some("23h ago"));
    assert_eq!(format_relative_age(Some(86400)).as_deref(), Some("1d ago"));
    assert_eq!(
        format_relative_age(Some(u64::MAX)).as_deref(),
        Some("213503982334601d ago")
    );
    let digits: String = u64_to_decimal(u64::MAX).into_iter().collect();
    assert_eq!(digits, "18446744073709551615");
    let zero: String = u64_to_decimal(0).into_iter().collect();
    assert_eq!(zero, "0");
}

#[test]
fn hex_is_lower_case() {
    let digits: String = (0u8..18).map(hex_char).collect();
    assert_eq!(digits, "0123456789abcdef00");
    assert_eq!(hex_char(255), '0');
    assert_eq!(hex_encode(&vec![]), "");
    assert_eq!(hex_encode(&vec![0x00, 0x0f, 0xa5, 0xff]), "000fa5ff");
}

#[test]
fn server_config_from_env_defaults_to_disabled() {
    let cfg = ServerConfig::from_env_values(None, None);
    assert_eq!(cfg.auth.mode, AuthMode::Disabled);
    assert_eq!(cfg.auth.bootstrap_token, None);
    let cfg = ServerConfig::default();
    assert_eq!(cfg.auth.mode, AuthMode::Disabled);
    assert_eq!(cfg.auth.bootstrap_token, None);
    let auth = AuthConfig::default();
    assert_eq!(auth.mode, AuthMode::Disabled);
    assert_eq!(auth.bootstrap_token, None);
}

#[test]
fn server_config_from_env_parses_auth_mode_single_user() {
    for value in [
        "single_user",
        "SINGLE_USER",
        " Single-User ",
        "singleuser",
        "SINGLEUSER",
    ] {
        let cfg = ServerConfig::from_env_values(Some(value), None);
        assert_eq!(cfg.auth.mode, AuthMode::SingleUser, "value={value:?}");
    }
    for value in ["", "single user", "disabled", "single__user"] {
        let cfg = ServerConfig::from_env_values(Some(value), None);
        assert_eq!(cfg.auth.mode, AuthMode::Disabled, "value={value:?}");
    }
}

#[test]
fn server_config_from_env_trims_bootstrap_token() {
    let cfg = ServerConfig::from_env_values(None, Some("  abc  "));
    assert_eq!(cfg.auth.bootstrap_token.as_deref(), Some("abc"));

    let cfg = ServerConfig::from_env_values(None, Some("   "));
    assert_eq!(cfg.auth.bootstrap_token, None);
}

#[test]
fn shell_environment_is_read_between_delimiters() {
    let d = SHELL_ENV_DELIMITER;
    assert_eq!(d, "_SHELL_ENV_DELIMITER_");
    assert_eq!(
        shell_env_command(),
        "echo -n \"_SHELL_ENV_DELIMITER_\"; env; echo -n \"_SHELL_ENV_DELIMITER_\"; exit"
    );
    assert_eq!(default_shell(true), "/bin/zsh");
    assert_eq!(default_shell(false), "/bin/sh");
    let vars = runtime_shell_env_vars();
    assert_eq!(
        vars,
        vec![
            "PATH", "HTTP_PROXY", "HTTPS_PROXY", "ALL_PROXY", "NO_PROXY", "http_proxy",
            "https_proxy", "all_proxy", "no_proxy"
        ]
    );
    let output = format!(
        "noise{d}PATH=/opt/test/bin:/usr/bin\nHTTPS_PROXY=http://127.0.0.1:7890\r\nNO_PROXY=localhost,127.0.0.1\nHOME=/home/u\n\n   \nnovalue\nA=b=c\r{d}PATH=ignored"
    );
    let pair = |k: &str, v: &str| (k.to_owned(), v.to_owned());
    assert_eq!(
        parse_shell_env(&output, &vars),
        Some(vec![
            pair("PATH", "/opt/test/bin:/usr/bin"),
            pair("HTTPS_PROXY", "http://127.0.0.1:7890"),
            pair("NO_PROXY", "localhost,127.0.0.1"),
        ])
    );
    assert_eq!(
        parse_shell_env(&output, &Vec::new()),
        Some(vec![
            pair("PATH", "/opt/test/bin:/usr/bin"),
            pair("HTTPS_PROXY", "http://127.0.0.1:7890"),
            pair("NO_PROXY", "localhost,127.0.0.1"),
            pair("HOME", "/home/u"),
            pair("A", "b=c\r"),
        ])
    );
    assert_eq!(parse_shell_env("no delimiter", &vars), None);
    assert_eq!(parse_shell_env(&format!("x{d}PATH=/bin"), &vars), Some(vec![pair("PATH", "/bin")]));
    assert_eq!(parse_shell_env(&format!("{d}{d}PATH=/bin"), &vars), Some(vec![]));
    assert_eq!(parse_shell_env(&format!("{d}=v\n"), &Vec::new()), Some(vec![pair("", "v")]));
}

#[test]
fn tool_names_and_fields_are_normalized() {
    assert_eq!(tool_name_key("  Read_File "), "read_file");
    assert_eq!(tool_name_key(""), "");
    assert_eq!(
        extract_string_field(&vec![None, Some("  ".to_owned()), Some(" x ".to_owned()), Some("y".to_owned())])
            .as_deref(),
        Some("x")
    );
    assert_eq!(extract_string_field(&vec![None, Some("".to_owned())]), None);
    assert_eq!(extract_string_field(&vec![]), None);
}

#[test]
fn roots_follow_override_then_home() {
    let local = |home: Option<&str>, rest: &str| {
        Some(LocalPath { home: home.map(|h| h.to_owned()), rest: rest.to_owned() })
    };
    assert_eq!(resolve_luban_root(Some("/data"), Some("/home/u")), local(None, "/data"));
    assert_eq!(resolve_luban_root(None, Some("/home/u")), local(Some("/home/u"), "luban"));
    assert_eq!(resolve_luban_root(None, None), None);
    assert_eq!(resolve_codex_root(Some("/c"), true, None), local(None, "/c"));
    assert_eq!(resolve_codex_root(None, true, Some("/home/u")), local(None, ".codex"));
    assert_eq!(resolve_codex_root(None, false, Some("/home/u")), local(Some("/home/u"), ".codex"));
    assert_eq!(resolve_codex_root(None, false, None), None);
    assert_eq!(resolve_agent_root(None, true, None, ".agent"), local(None, ".agent"));
    assert_eq!(resolve_agent_root(None, false, Some("/h"), ".agent"), local(Some("/h"), ".agent"));
    assert_eq!(resolve_agent_root(Some("/o"), false, Some("/h"), ".agent"), local(None, "/o"));
    assert_eq!(resolve_agent_root(None, false, None, ".agent"), None);
    let parts = |v: &[&str]| Some(v.iter().map(|s| s.to_string()).collect::<Vec<_>>());
    assert_eq!(resolve_amp_root(Some("/a"), false, Some("/x"), Some("/h")), parts(&["/a"]));
    assert_eq!(resolve_amp_root(None, true, Some("/x"), Some("/h")), parts(&[".amp"]));
    assert_eq!(resolve_amp_root(None, false, Some(" /x "), Some("/h")), parts(&["/x", "amp"]));
    assert_eq!(resolve_amp_root(None, false, Some("  "), Some("/h")), parts(&["/h", ".config", "amp"]));
    assert_eq!(resolve_amp_root(None, false, None, None), None);
}

#[test]
fn apply_shell_env_is_noop_off_macos() {
    assert!(matches!(
        apply_runtime_shell_env_defaults(false),
        ShellEnvAction::Nothing
    ));
    assert!(matches!(
        apply_user_shell_env_vars(false, vec!["PATH".to_owned()]),
        ShellEnvAction::Nothing
    ));
}

#[test]
fn fix_path_is_noop_off_macos() {
    assert!(matches!(fix_path_env(false), ShellEnvAction::Nothing));
}

#[test]
fn shell_is_asked_on_macos() {
    match apply_runtime_shell_env_defaults(true) {
        ShellEnvAction::AskShell { command, vars } => {
            assert_eq!(command, shell_env_command());
            assert_eq!(vars, runtime_shell_env_vars());
        }
        other => panic!("unexpected: {other:?}"),
    }
    match apply_user_shell_env_vars(true, Vec::new()) {
        ShellEnvAction::AskShell { vars, .. } => assert!(vars.is_empty()),
        other => panic!("unexpected: {other:?}"),
    }
    assert!(matches!(fix_path_env(true), ShellEnvAction::AskShell { .. }));
}

#[test]
fn workspace_names_are_two_words_of_the_list() {
    let words = bip39::Language::English.word_list();
    assert_eq!(luban_core::workspace_name::WORD_COUNT, words.len());
    assert_eq!(luban_core::workspace_name::workspace_name_of(0, 2047), "abandon-zoo");
    assert_eq!(luban_core::workspace_name::workspace_name_of(1, 1), "ability-ability");
    for _ in 0..50 {
        let name = luban_core::workspace_name::generate_workspace_name();
        let (first, second) = name.split_once('-').expect("two words");
        assert!(words.contains(&first), "{first}");
        assert!(words.contains(&second), "{second}");
    }
}

#[test]
fn random_hex_has_two_digits_for_each_byte() {
    assert_eq!(luban_core::hex::random_hex(0), "");
    let token = luban_core::hex::random_hex(32);
    assert_eq!(token.len(), 64);
    assert!(token.chars().all(|c| c.is_ascii_digit() || ('a'..='f').contains(&c)));
    assert_ne!(token, luban_core::hex::random_hex(32));
}
