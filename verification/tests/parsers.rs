use luban_core::amp_mode::{
    amp_config_candidates, detect_amp_mode_from_config_root, is_readable_config,
    parse_amp_mode_from_config_text,
};
use luban_core::ansi::strip_ansi_control_sequences;
use luban_core::config_path::{
    parse_lenient_relative_list_dir_path, parse_strict_relative_file_path,
    parse_strict_relative_list_dir_path, PathError, RelativePath,
};
use luban_core::git_branch::normalize_branch_suffix;
use luban_core::mentions::{escape_glob_fragment, fuzzy_glob_pattern, fuzzy_match_ascii};
use luban_core::mention_search::{
    listing_failed, matching_files, mention_glob, mention_items, MentionItemKind,
    MentionItemSnapshot,
};
use luban_core::project_avatars::{
    avatar_body_fits, cache_file_name_for_owner, cached_avatar_is_fresh,
    classify_avatar_response, github_avatar_base_url, github_owner_avatar_url,
    github_owner_from_repo_id, is_valid_github_owner, AvatarResponse,
};
use luban_core::reconnect_notice::{contains_attempt_fraction, is_transient_reconnect_notice};
use std::path::PathBuf;

fn as_path(rel: RelativePath) -> PathBuf {
    let mut out = PathBuf::new();
    for segment in rel.segments {
        out.push(segment);
    }
    out
}

#[test]
fn strict_accepts_empty_as_root() {
    assert_eq!(
        as_path(parse_strict_relative_list_dir_path("").unwrap()).as_os_str(),
        ""
    );
    assert_eq!(
        as_path(parse_strict_relative_list_dir_path("   ").unwrap()).as_os_str(),
        ""
    );
}

#[test]
fn strict_rejects_empty_segments() {
    assert_eq!(
        parse_strict_relative_list_dir_path("a/")
            .unwrap_err()
            .to_string(),
        "invalid path segment"
    );
    assert_eq!(
        parse_strict_relative_list_dir_path("a//b")
            .unwrap_err()
            .to_string(),
        "invalid path segment"
    );
}

#[test]
fn strict_rejects_dot_and_dotdot_segments() {
    assert_eq!(
        parse_strict_relative_list_dir_path(".")
            .unwrap_err()
            .to_string(),
        "invalid path segment"
    );
    assert_eq!(
        parse_strict_relative_list_dir_path("..")
            .unwrap_err()
            .to_string(),
        "invalid path segment"
    );
    assert_eq!(
        parse_strict_relative_list_dir_path("a/../b")
            .unwrap_err()
            .to_string(),
        "invalid path segment"
    );
}

#[test]
fn lenient_skips_empty_segments() {
    assert_eq!(
        as_path(parse_lenient_relative_list_dir_path("a/").unwrap()),
        std::path::PathBuf::from("a")
    );
    assert_eq!(
        as_path(parse_lenient_relative_list_dir_path("a//b").unwrap()),
        std::path::PathBuf::from("a/b")
    );
}

#[test]
fn both_reject_absolute_paths_and_backslashes() {
    assert_eq!(
        parse_strict_relative_list_dir_path("/a")
            .unwrap_err()
            .to_string(),
        "path must be relative"
    );
    assert_eq!(
        parse_lenient_relative_list_dir_path("/a")
            .unwrap_err()
            .to_string(),
        "path must be relative"
    );
    assert_eq!(
        parse_strict_relative_list_dir_path("a\\\\b")
            .unwrap_err()
            .to_string(),
        "invalid path separator"
    );
    assert_eq!(
        parse_lenient_relative_list_dir_path("a\\\\b")
            .unwrap_err()
            .to_string(),
        "invalid path separator"
    );
}

#[test]
fn file_path_requires_non_empty() {
    assert_eq!(
        parse_strict_relative_file_path("").unwrap_err().to_string(),
        "path is empty"
    );
    assert_eq!(
        parse_strict_relative_file_path("   ")
            .unwrap_err()
            .to_string(),
        "path is empty"
    );
}

#[test]
fn relative_paths_keep_their_segments() {
    let segments = |r: Result<RelativePath, PathError>| r.unwrap().segments;
    assert_eq!(segments(parse_strict_relative_list_dir_path(" a/b c/d ")), vec!["a", "b c", "d"]);
    assert_eq!(segments(parse_strict_relative_file_path("x/y.txt")), vec!["x", "y.txt"]);
    assert_eq!(segments(parse_lenient_relative_list_dir_path("")), Vec::<String>::new());
    assert_eq!(segments(parse_lenient_relative_list_dir_path("a///b/")), vec!["a", "b"]);
    assert_eq!(segments(parse_strict_relative_list_dir_path("...")), vec!["..."]);
    assert_eq!(
        parse_lenient_relative_list_dir_path("a/./b").unwrap_err(),
        PathError::Segment
    );
    assert_eq!(parse_strict_relative_file_path("/x").unwrap_err(), PathError::NotRelative);
    assert_eq!(parse_strict_relative_file_path("x\\y").unwrap_err(), PathError::Separator);
    assert_eq!(parse_strict_relative_file_path(" ").unwrap_err(), PathError::Empty);
    // The slash is looked at before the backslash.
    assert_eq!(parse_strict_relative_list_dir_path("/a\\b").unwrap_err(), PathError::NotRelative);
}

#[test]
fn normalize_branch_suffix_strips_prefixes_and_sanitizes() {
    assert_eq!(
        normalize_branch_suffix("refs/heads/luban/Foo_Bar").as_deref(),
        Some("foo-bar")
    );
    assert_eq!(
        normalize_branch_suffix("luban/Hello---World").as_deref(),
        Some("hello-world")
    );
    assert_eq!(
        normalize_branch_suffix("  hello world  ").as_deref(),
        Some("hello-world")
    );
    assert_eq!(normalize_branch_suffix("   "), None);
    assert_eq!(normalize_branch_suffix("luban/---"), None);
}

#[test]
fn normalize_branch_suffix_limits_length() {
    let input = "refs/heads/luban/abcdefghijklmnopqrstuvwxyz";
    let suffix = normalize_branch_suffix(input).expect("suffix should be present");
    assert_eq!(suffix.len(), 24);
    assert_eq!(suffix, "abcdefghijklmnopqrstuvwx");
}

#[test]
fn branch_suffix_edge_cases() {
    // The cut may leave a hyphen at the end, which is taken off again.
    assert_eq!(
        normalize_branch_suffix("abcdefghijklmnopqrstuvw-xyz").as_deref(),
        Some("abcdefghijklmnopqrstuvw")
    );
    // Only one of each prefix is taken off, and in this order.
    assert_eq!(
        normalize_branch_suffix("luban/refs/heads/x").as_deref(),
        Some("refs-heads-x")
    );
    assert_eq!(normalize_branch_suffix("luban/luban/x").as_deref(), Some("luban-x"));
    assert_eq!(normalize_branch_suffix("été").as_deref(), Some("t"));
    assert_eq!(normalize_branch_suffix("A1").as_deref(), Some("a1"));
    assert_eq!(normalize_branch_suffix("refs/heads/"), None);
}

#[test]
fn fuzzy_match_ascii_is_ordered() {
    let needle = "rdm".as_bytes();
    assert!(fuzzy_match_ascii(needle, b"README.md"));
    assert!(fuzzy_match_ascii(needle, b"readme.md"));
    assert!(!fuzzy_match_ascii(needle, b"mdrea"));
}

#[test]
fn fuzzy_match_edge_cases() {
    assert!(fuzzy_match_ascii(b"", b""));
    assert!(fuzzy_match_ascii(b"", b"x"));
    assert!(!fuzzy_match_ascii(b"x", b""));
    assert!(fuzzy_match_ascii(b"aa", b"aXa"));
    assert!(!fuzzy_match_ascii(b"aa", b"a"));
    // Only the haystack is folded: the needle is taken as it is.
    assert!(!fuzzy_match_ascii(b"R", b"readme"));
    assert!(fuzzy_match_ascii(b"[", b"["));
    assert!(!fuzzy_match_ascii(b"{", b"["));
}

#[test]
fn glob_patterns_escape_specials() {
    assert_eq!(escape_glob_fragment(""), "");
    assert_eq!(escape_glob_fragment("a*b?"), "a\\*b\\?");
    assert_eq!(escape_glob_fragment("[]{}!"), "\\[\\]\\{\\}\\!");
    assert_eq!(escape_glob_fragment("plain.rs"), "plain.rs");
    assert_eq!(fuzzy_glob_pattern(""), "**/*");
    assert_eq!(fuzzy_glob_pattern("ab"), "**/*a*b*");
    assert_eq!(fuzzy_glob_pattern("a*"), "**/*a*\\**");
}

#[test]
fn github_owner_from_repo_id_parses_owner() {
    assert_eq!(
        github_owner_from_repo_id("github.com/apache/opendal").as_deref(),
        Some("apache")
    );
    assert_eq!(
        github_owner_from_repo_id("github.com/apache/opendal/").as_deref(),
        Some("apache")
    );
}

#[test]
fn github_owner_from_repo_id_rejects_non_github_repo_id() {
    assert_eq!(github_owner_from_repo_id("gitlab.com/apache/opendal"), None);
}

#[test]
fn github_owner_from_repo_id_rejects_missing_segments() {
    assert_eq!(github_owner_from_repo_id("github.com/apache"), None);
    assert_eq!(github_owner_from_repo_id("github.com/"), None);
}

#[test]
fn github_owner_edge_cases() {
    assert_eq!(
        github_owner_from_repo_id("  github.com//a_b-1//repo/more/// ").as_deref(),
        Some("a_b-1")
    );
    assert_eq!(github_owner_from_repo_id("github.com/a.b/repo"), None);
    assert_eq!(github_owner_from_repo_id("GitHub.com/a/repo"), None);
    assert!(is_valid_github_owner(" apache "));
    assert!(!is_valid_github_owner(""));
    assert!(!is_valid_github_owner("a b"));
    assert!(is_valid_github_owner(&"a".repeat(128)));
    assert!(!is_valid_github_owner(&"a".repeat(129)));
    assert!(!is_valid_github_owner("é"));
}

#[test]
fn amp_mode_is_read_from_the_first_line_that_sets_it() {
    assert_eq!(parse_amp_mode_from_config_text(""), None);
    assert_eq!(parse_amp_mode_from_config_text("mode: smart").as_deref(), Some("smart"));
    assert_eq!(parse_amp_mode_from_config_text("MODE = \"Rush\"").as_deref(), Some("rush"));
    assert_eq!(
        parse_amp_mode_from_config_text("  \"mode\"  :  \"smart\"").as_deref(),
        Some("smart")
    );
    // Only the quotes at the very ends are taken off: a comma behind the
    // closing quote keeps it in the word.
    assert_eq!(parse_amp_mode_from_config_text("\"mode\": \"smart\","), None);
    assert_eq!(parse_amp_mode_from_config_text("\"mode\" = \"smart\""), None);
    assert_eq!(
        parse_amp_mode_from_config_text("# mode: smart\n// mode: rush\nmode: other\r\nmode = rush # fast\n")
            .as_deref(),
        Some("rush")
    );
    assert_eq!(parse_amp_mode_from_config_text("mode smart"), None);
    assert_eq!(parse_amp_mode_from_config_text("model: smart"), None);
    assert_eq!(parse_amp_mode_from_config_text("mode: smarter"), None);
    assert_eq!(parse_amp_mode_from_config_text("mode:smart,rush").as_deref(), Some("smart"));
    assert_eq!(parse_amp_mode_from_config_text("mode: 'smart").as_deref(), Some("smart"));
    assert_eq!(parse_amp_mode_from_config_text("mode = 'rush'\r\n").as_deref(), Some("rush"));
    assert_eq!(parse_amp_mode_from_config_text("mode = 'rush' # fast"), None);
}

#[test]
fn amp_mode_is_detected_in_the_first_file_that_sets_it() {
    let names = amp_config_candidates();
    assert_eq!(names.len(), 12);
    assert_eq!(names[0], "config.toml");
    assert_eq!(names[7], "amp.json");
    assert_eq!(names[11], "settings.json");
    assert!(is_readable_config(true, 2 * 1024 * 1024));
    assert!(!is_readable_config(true, 2 * 1024 * 1024 + 1));
    assert!(!is_readable_config(false, 1));
    let files = vec![
        None,
        Some("name = 1".to_owned()),
        Some("mode = rush".to_owned()),
        Some("mode = smart".to_owned()),
    ];
    assert_eq!(detect_amp_mode_from_config_root(&files).as_deref(), Some("rush"));
    assert_eq!(detect_amp_mode_from_config_root(&vec![None, None]), None);
}

#[test]
fn ansi_sequences_are_stripped() {
    assert_eq!(strip_ansi_control_sequences(""), "");
    assert_eq!(strip_ansi_control_sequences("plain"), "plain");
    assert_eq!(strip_ansi_control_sequences("\u{1b}[31mred\u{1b}[0m!"), "red!");
    assert_eq!(strip_ansi_control_sequences("a\u{1b}[1;32"), "a");
    assert_eq!(strip_ansi_control_sequences("a\u{1b}Xb"), "ab");
    assert_eq!(strip_ansi_control_sequences("a\u{1b}"), "a");
    assert_eq!(strip_ansi_control_sequences("\u{1b}[\u{1b}[mx"), "x");
    assert_eq!(strip_ansi_control_sequences("\u{1b}\u{1b}[mx"), "[mx");
}

#[test]
fn reconnect_notices_are_told_apart() {
    assert!(contains_attempt_fraction("try 2/5"));
    assert!(contains_attempt_fraction("12/34"));
    assert!(!contains_attempt_fraction("2/"));
    assert!(!contains_attempt_fraction("/5"));
    assert!(!contains_attempt_fraction("2 / 5"));
    assert!(!contains_attempt_fraction(""));
    assert!(contains_attempt_fraction("1/x 3/4"));
    assert!(is_transient_reconnect_notice("  Reconnecting... 1/5 "));
    assert!(!is_transient_reconnect_notice("Reconnecting..."));
    assert!(!is_transient_reconnect_notice("retry 1/5"));
    assert!(!is_transient_reconnect_notice("   "));
}

#[test]
fn mention_search_ranks_folders_then_files() {
    assert_eq!(mention_glob("   "), None);
    assert_eq!(mention_glob(" rd "), Some("**/*r*d*".to_owned()));
    assert!(!listing_failed(true, Some(0)));
    assert!(!listing_failed(false, Some(1)));
    assert!(listing_failed(false, Some(2)));
    assert!(listing_failed(false, None));

    let listing = "src/readme.md\n\n  docs\\README.md  \r\nsrc/main.rs\nREADME.md\nsrc/Road.txt\n";
    let files = matching_files(listing, " RDM ");
    // By name without regard to case, then by path; `main.rs` and
    // `Road.txt` do not hold r, d, m in order.
    assert_eq!(files, vec!["README.md", "docs/README.md", "src/readme.md"]);
    assert_eq!(matching_files("", "x"), Vec::<String>::new());
    assert_eq!(matching_files("b/x\na/x\na/X\nB/x\n", "x"), vec!["B/x", "a/X", "a/x", "b/x"]);

    let item = |kind: MentionItemKind, id: &str, name: &str, path: &str| MentionItemSnapshot {
        id: id.to_owned(),
        name: name.to_owned(),
        path: path.to_owned(),
        kind,
    };
    let files = vec!["src/core/store.rs".to_owned(), "docs/store.md".to_owned()];
    let ancestors = vec![
        vec!["src/core".to_owned(), "src".to_owned(), "".to_owned()],
        vec!["docs".to_owned(), "".to_owned()],
    ];
    assert_eq!(
        mention_items(&files, &ancestors, "s"),
        vec![
            item(MentionItemKind::Folder, "folder:docs/", "docs", "docs/"),
            item(MentionItemKind::Folder, "folder:src/", "src", "src/"),
            item(MentionItemKind::File, "file:src/core/store.rs", "store.rs", "src/core/store.rs"),
            item(MentionItemKind::File, "file:docs/store.md", "store.md", "docs/store.md"),
        ]
    );
    // The walk up ends at `.`; a folder is offered once.
    let ancestors = vec![
        vec!["a\\sub".to_owned(), ".".to_owned(), "sky".to_owned()],
        vec!["a/sub/".to_owned()],
    ];
    assert_eq!(
        mention_items(&Vec::new(), &ancestors, "s"),
        vec![item(MentionItemKind::Folder, "folder:a/sub/", "sub", "a/sub/")]
    );
}

#[test]
fn mention_search_is_cut_to_its_limits() {
    let many: String = (0..2100).map(|i| format!("d/f{i:04}\n")).collect();
    let files = matching_files(&many, "f");
    assert_eq!(files.len(), 200);
    assert_eq!(files[0], "d/f0000");
    assert_eq!(files[199], "d/f0199");
    // Only the first 2000 lines are looked at.
    let late: String = (0..2000)
        .map(|_| "zzz\n".to_owned())
        .chain(std::iter::once("abc\n".to_owned()))
        .collect();
    assert_eq!(matching_files(&late, "abc"), Vec::<String>::new());
    let chains: Vec<Vec<String>> = files.iter().map(|_| vec!["d".to_owned()]).collect();
    let items = mention_items(&files, &chains, "f");
    assert_eq!(items.len(), 20);
    assert!(items.iter().all(|i| i.kind == MentionItemKind::File));
    let folders: Vec<Vec<String>> = (0..30).map(|i| vec![format!("f{i:02}")]).collect();
    let items = mention_items(&files, &folders, "f");
    assert_eq!(items.len(), 20);
    assert!(items.iter().all(|i| i.kind == MentionItemKind::Folder));
    assert_eq!(items[0].path, "f00/");
    assert_eq!(items[19].path, "f19/");
}

#[test]
fn avatars_are_fetched_and_cached_by_rule() {
    assert_eq!(github_avatar_base_url(None), "https://github.com");
    assert_eq!(github_avatar_base_url(Some("  ")), "https://github.com");
    assert_eq!(github_avatar_base_url(Some(" / ")), "https://github.com");
    assert_eq!(github_avatar_base_url(Some(" http://localhost:8080// ")), "http://localhost:8080");
    assert_eq!(
        github_owner_avatar_url("https://github.com", "apache").as_deref(),
        Some("https://github.com/apache.png?size=64")
    );
    assert_eq!(github_owner_avatar_url("https://github.com", "a/b"), None);
    assert_eq!(
        cache_file_name_for_owner("apache"),
        format!("{}.png", blake3::hash(b"apache").to_hex())
    );
    assert_eq!(cache_file_name_for_owner("apache").len(), 68);
    assert_ne!(cache_file_name_for_owner("a"), cache_file_name_for_owner("b"));
    let week = 7 * 24 * 60 * 60;
    assert!(cached_avatar_is_fresh(0, 0));
    assert!(cached_avatar_is_fresh(week, 0));
    assert!(!cached_avatar_is_fresh(week, 1));
    assert!(!cached_avatar_is_fresh(week + 1, 0));
    assert_eq!(classify_avatar_response(404, None), AvatarResponse::NotFound);
    assert_eq!(classify_avatar_response(500, Some(1)), AvatarResponse::BadStatus(500));
    assert_eq!(classify_avatar_response(302, None), AvatarResponse::BadStatus(302));
    assert_eq!(classify_avatar_response(200, None), AvatarResponse::ReadBody);
    assert_eq!(classify_avatar_response(200, Some(2 * 1024 * 1024)), AvatarResponse::ReadBody);
    assert_eq!(
        classify_avatar_response(200, Some(2 * 1024 * 1024 + 1)),
        AvatarResponse::TooLarge(2 * 1024 * 1024 + 1)
    );
    assert!(avatar_body_fits(2 * 1024 * 1024));
    assert!(!avatar_body_fits(2 * 1024 * 1024 + 1));
}
