use luban_core::app_state::{AppState, RightPaneTab, TimelineStatus};
use luban_core::appearance::{
    normalize_font, normalize_string, AppearanceFonts, AppearanceTheme,
};
use luban_core::attachments::{stored_blob_file_name, AttachmentKind, AttachmentRef, ContextItem};
use luban_core::codex::{
    CodexCommandExecutionStatus, CodexErrorMessage, CodexFileUpdateChange,
    CodexMcpToolCallStatus, CodexPatchApplyStatus, CodexPatchChangeKind, CodexThreadError,
    CodexThreadEvent, CodexThreadItem, CodexTodoItem, CodexUsage,
};
use luban_core::context_tokens::{
    extract_context_image_paths_in_order, find_context_tokens, ContextTokenKind,
};
use luban_core::ids::{ProjectId, WorkspaceId, WorkspaceThreadId};
use luban_core::layout::{
    active_project_id, sidebar_workspace_metadata, MainPane, OperationStatus, ProjectEntry,
    RightPane, WorkspaceEntry, WorkspaceStatus,
};
use luban_core::system_prompts::{
    default_system_prompt_template, default_system_prompt_templates, SystemTaskKind,
};
use luban_core::title::{derive_thread_title, THREAD_TITLE_MAX_CHARS};
use std::path::PathBuf;

#[test]
fn context_token_parsing_is_tolerant_and_ordered() {
    let text = "hello\n<<context:image:/a.png>>>\nworld\n<<context:text:/b.txt>>>\n<<context:image:/c.jpg>>>\n";
    let tokens = find_context_tokens(text);
    assert_eq!(tokens.len(), 3);
    assert_eq!(tokens[0].kind, ContextTokenKind::Image);
    assert_eq!(PathBuf::from(&tokens[0].path), PathBuf::from("/a.png"));
    assert_eq!(tokens[1].kind, ContextTokenKind::Text);
    assert_eq!(PathBuf::from(&tokens[2].path), PathBuf::from("/c.jpg"));

    let images: Vec<PathBuf> = extract_context_image_paths_in_order(text)
        .into_iter()
        .map(PathBuf::from)
        .collect();
    assert_eq!(
        images,
        vec![PathBuf::from("/a.png"), PathBuf::from("/c.jpg")]
    );
}

#[test]
fn unknown_kinds_are_ignored() {
    let text = "<<context:unknown:/x>>>";
    assert!(find_context_tokens(text).is_empty());
}

#[test]
fn context_token_parsing_trims_kind_and_path() {
    let text = "<<context:  ImAgE  :  /a.png  >>>";
    let tokens = find_context_tokens(text);
    assert_eq!(tokens.len(), 1);
    assert_eq!(tokens[0].kind, ContextTokenKind::Image);
    assert_eq!(PathBuf::from(&tokens[0].path), PathBuf::from("/a.png"));
}

#[test]
fn context_token_ranges_cover_full_token() {
    let text = "x <<context:image:/a.png>>> y";
    let tokens = find_context_tokens(text);
    assert_eq!(tokens.len(), 1);
    let start = text.find("<<context:").expect("missing token start");
    let expected = "<<context:image:/a.png>>>";
    let end = start + expected.len();
    assert_eq!(tokens[0].range, start..end);
    assert_eq!(&text[tokens[0].range.clone()], expected);
}

#[test]
fn context_token_ranges_count_bytes() {
    let text = "é😀 <<context:file: /päth >>>ß<<context:text:ü>>>";
    let tokens = find_context_tokens(text);
    assert_eq!(tokens.len(), 2);
    assert_eq!(tokens[0].kind, ContextTokenKind::File);
    assert_eq!(tokens[0].path, "/päth");
    assert_eq!(&text[tokens[0].range.clone()], "<<context:file: /päth >>>");
    assert_eq!(tokens[0].range, 7..33);
    assert_eq!(&text[tokens[1].range.clone()], "<<context:text:ü>>>");
    assert_eq!(tokens[1].range.end, text.len());
}

#[test]
fn context_token_edge_cases() {
    assert!(find_context_tokens("").is_empty());
    assert!(find_context_tokens("<<context:image").is_empty());
    assert!(find_context_tokens("<<context:image:/a.png>>").is_empty());
    assert!(find_context_tokens("<<context:image:   >>>").is_empty());
    // After a mark with an unknown kind the search goes on behind its colon.
    let tokens = find_context_tokens("<<context:bad:<<context:file:/f>>>");
    assert_eq!(tokens.len(), 1);
    assert_eq!(tokens[0].path, "/f");
    assert_eq!(tokens[0].range, 14..34);
    // The kind runs up to the first colon, the path up to the first `>>>`.
    let tokens = find_context_tokens("<<context:text:a:b>>>>");
    assert_eq!(tokens.len(), 1);
    assert_eq!(tokens[0].path, "a:b");
    assert_eq!(tokens[0].range, 0..21);
    assert_eq!(ContextTokenKind::Image.as_str(), "image");
    assert_eq!(ContextTokenKind::Text.as_str(), "text");
    assert_eq!(ContextTokenKind::File.as_str(), "file");
    let chars: Vec<char> = " FILE ".chars().collect();
    assert_eq!(ContextTokenKind::parse(&chars), Some(ContextTokenKind::File));
    assert_eq!(ContextTokenKind::parse(&Vec::new()), None);
}

#[test]
fn derive_thread_title_returns_empty_for_whitespace() {
    assert_eq!(derive_thread_title(""), "");
    assert_eq!(derive_thread_title("   \n  "), "");
}

#[test]
fn derive_thread_title_uses_first_line_only() {
    assert_eq!(derive_thread_title("hello\nworld"), "hello");
}

#[test]
fn derive_thread_title_truncates_to_limit() {
    let input = "a".repeat(THREAD_TITLE_MAX_CHARS + 10);
    let out = derive_thread_title(&input);
    assert_eq!(out.len(), THREAD_TITLE_MAX_CHARS);
}

#[test]
fn thread_title_edge_cases() {
    assert_eq!(derive_thread_title("  hi there \r\nnext"), "hi there");
    assert_eq!(derive_thread_title("\nsecond"), "");
    let long = "é".repeat(THREAD_TITLE_MAX_CHARS + 1);
    let out = derive_thread_title(&long);
    assert_eq!(out.chars().count(), THREAD_TITLE_MAX_CHARS);
    assert_eq!(out, "é".repeat(THREAD_TITLE_MAX_CHARS));
    // The cut counts characters of the trimmed line, and may end in a space.
    let spaced = format!("{} b", "a".repeat(THREAD_TITLE_MAX_CHARS - 1));
    assert_eq!(derive_thread_title(&spaced), format!("{} ", "a".repeat(THREAD_TITLE_MAX_CHARS - 1)));
}

#[test]
fn ids_round_trip() {
    assert_eq!(ProjectId::from_u64(7).as_u64(), 7);
    assert_eq!(WorkspaceId::from_u64(u64::MAX).as_u64(), u64::MAX);
    assert_eq!(WorkspaceThreadId::from_u64(0).as_u64(), 0);
    assert_eq!(ProjectId::from_u64(3), ProjectId::from_u64(3));
    assert_ne!(WorkspaceId::from_u64(3), WorkspaceId::from_u64(4));
}

#[test]
fn demo_state_is_as_described() {
    let state = AppState::demo();
    let names: Vec<&str> = state.projects.iter().map(|p| p.name.as_str()).collect();
    assert_eq!(names, vec!["luban", "scratch"]);
    assert_eq!(state.selected_project, 0);
    let timeline: Vec<(&str, TimelineStatus)> = state
        .timeline
        .iter()
        .map(|t| (t.title.as_str(), t.status))
        .collect();
    assert_eq!(
        timeline,
        vec![
            ("Scaffold project", TimelineStatus::Done),
            ("Index workspace", TimelineStatus::Running),
            ("Propose patch", TimelineStatus::Pending),
        ]
    );
    assert_eq!(state.selected_timeline_item, 1);
    assert_eq!(state.right_pane_tab, RightPaneTab::Diff);
    assert_ne!(TimelineStatus::Failed, TimelineStatus::Done);
    assert_ne!(RightPaneTab::Terminal, RightPaneTab::Diff);
}

#[test]
fn themes_are_named_and_parsed() {
    assert_eq!(AppearanceTheme::Light.as_str(), "light");
    assert_eq!(AppearanceTheme::Dark.as_str(), "dark");
    assert_eq!(AppearanceTheme::System.as_str(), "system");
    assert_eq!(AppearanceTheme::parse(" light "), Some(AppearanceTheme::Light));
    assert_eq!(AppearanceTheme::parse("dark"), Some(AppearanceTheme::Dark));
    assert_eq!(AppearanceTheme::parse("system\n"), Some(AppearanceTheme::System));
    assert_eq!(AppearanceTheme::parse("Light"), None);
    assert_eq!(AppearanceTheme::parse(""), None);
    assert_eq!(AppearanceTheme::default(), AppearanceTheme::System);
    for theme in [AppearanceTheme::Light, AppearanceTheme::Dark, AppearanceTheme::System] {
        assert_eq!(AppearanceTheme::parse(theme.as_str()), Some(theme));
    }
}

#[test]
fn fonts_have_defaults_and_are_normalized() {
    let fonts = AppearanceFonts::default();
    assert_eq!(fonts.ui_font, "Inter");
    assert_eq!(fonts.chat_font, "Inter");
    assert_eq!(fonts.code_font, "Geist Mono");
    assert_eq!(fonts.terminal_font, "Geist Mono");
    assert_eq!(normalize_font(None, "Inter"), "Inter");
    assert_eq!(normalize_font(Some("  "), "Inter"), "Inter");
    assert_eq!(normalize_font(Some(" Fira Code "), "Inter"), "Fira Code");
    assert_eq!(normalize_font(Some(&"x".repeat(128)), "Inter"), "x".repeat(128));
    assert_eq!(normalize_font(Some(&"x".repeat(129)), "Inter"), "Inter");
    // The limit counts bytes: 64 two-byte letters fit, 65 do not.
    assert_eq!(normalize_font(Some(&"é".repeat(64)), "Inter"), "é".repeat(64));
    assert_eq!(normalize_font(Some(&"é".repeat(65)), "Inter"), "Inter");
    assert_eq!(normalize_string(Some("abc"), "f", 2), "f");
    assert_eq!(normalize_string(Some("ab"), "f", 2), "ab");
}

#[test]
fn system_prompts_are_keyed() {
    assert_eq!(SystemTaskKind::InferType.as_key(), "infer-type");
    assert_eq!(SystemTaskKind::RenameBranch.as_key(), "rename-branch");
    assert_eq!(SystemTaskKind::InferType.label(), "Infer Type");
    assert_eq!(SystemTaskKind::RenameBranch.label(), "Rename Branch");
    let all = default_system_prompt_templates();
    assert_eq!(all.len(), 2);
    assert_eq!(all[0].0, SystemTaskKind::InferType);
    assert_eq!(all[1].0, SystemTaskKind::RenameBranch);
    assert_eq!(all[0].1, default_system_prompt_template(SystemTaskKind::InferType));
    assert_eq!(all[1].1, default_system_prompt_template(SystemTaskKind::RenameBranch));
    assert!(all[0].1.starts_with("You are classifying a user's input into a task intent kind.\n"));
    assert!(all[0].1.ends_with("{\n  \"intent_kind\": \"<one of the allowed values>\"\n}\n"));
    assert!(all[1].1.starts_with("You are generating a git branch name.\n"));
    assert!(all[1].1.ends_with("Retrieved context:\n{{context_json}}\n"));
    assert_eq!(all[0].1.len(), 594);
    assert_eq!(all[1].1.len(), 684);
}

#[test]
fn plain_values_compare_by_their_fields() {
    let attachment = AttachmentRef {
        id: "abc".to_owned(),
        kind: AttachmentKind::Image,
        name: "shot".to_owned(),
        extension: "png".to_owned(),
        mime: Some("image/png".to_owned()),
        byte_len: 10,
    };
    assert_eq!(stored_blob_file_name(&attachment), "abc.png");
    let item = ContextItem { id: 1, attachment: attachment.clone(), created_at_unix_ms: 5 };
    assert_eq!(item.clone(), item);
    assert_ne!(AttachmentKind::Text, AttachmentKind::File);
    assert_eq!(MainPane::Workspace(WorkspaceId::from_u64(1)), MainPane::Workspace(WorkspaceId::from_u64(1)));
    assert_ne!(MainPane::ProjectSettings(ProjectId::from_u64(1)), MainPane::Dashboard);
    assert_ne!(MainPane::Nothing, MainPane::Dashboard);
    assert_ne!(RightPane::Nothing, RightPane::Terminal);
    assert_ne!(WorkspaceStatus::Active, WorkspaceStatus::Archived);
    assert_ne!(OperationStatus::Idle, OperationStatus::Running);
    assert_ne!(CodexCommandExecutionStatus::InProgress, CodexCommandExecutionStatus::Completed);
    assert_ne!(CodexCommandExecutionStatus::Failed, CodexCommandExecutionStatus::Completed);
    assert_ne!(CodexPatchChangeKind::Add, CodexPatchChangeKind::Delete);
    assert_ne!(CodexPatchApplyStatus::Completed, CodexPatchApplyStatus::Failed);
    assert_ne!(CodexMcpToolCallStatus::InProgress, CodexMcpToolCallStatus::Failed);
    let change = CodexFileUpdateChange { path: "a".to_owned(), kind: CodexPatchChangeKind::Update };
    assert_eq!(change.clone(), change);
    assert_eq!(
        CodexUsage { input_tokens: 1, cached_input_tokens: 2, output_tokens: 3 },
        CodexUsage { input_tokens: 1, cached_input_tokens: 2, output_tokens: 3 }
    );
    assert_eq!(CodexErrorMessage { message: "m".to_owned() }, CodexErrorMessage { message: "m".to_owned() });
    assert_eq!(
        CodexTodoItem { text: "t".to_owned(), completed: true },
        CodexTodoItem { text: "t".to_owned(), completed: true }
    );
    assert_eq!(CodexThreadError { message: "e".to_owned() }, CodexThreadError { message: "e".to_owned() });
    let event = CodexThreadEvent::ItemCompleted {
        item: CodexThreadItem::McpToolCall {
            id: "1".to_owned(),
            server: "s".to_owned(),
            tool: "t".to_owned(),
            arguments: serde_json::Value::Null,
            result: None,
            error: None,
            status: CodexMcpToolCallStatus::Completed,
        },
    };
    match event.clone() {
        CodexThreadEvent::ItemCompleted { item: CodexThreadItem::McpToolCall { arguments, .. } } => {
            assert_eq!(arguments, serde_json::Value::Null)
        }
        other => panic!("unexpected: {other:?}"),
    }
}

#[test]
fn queued_prompts_carry_their_run_configuration() {
    let config = luban_core::agent::AgentRunConfig {
        runner: "codex",
        model_id: "m".to_owned(),
        thinking_effort: 2u8,
        amp_mode: Some("smart".to_owned()),
    };
    let prompt = luban_core::agent::QueuedPrompt {
        id: 1,
        text: "hello".to_owned(),
        attachments: Vec::new(),
        run_config: config.clone(),
    };
    assert_eq!(prompt.clone(), prompt);
    assert_eq!(prompt.run_config, config);
    assert_eq!(prompt.run_config.amp_mode.as_deref(), Some("smart"));
}

#[test]
fn the_active_project_follows_the_main_pane() {
    let w = |id: u64, status: WorkspaceStatus| WorkspaceEntry { id: WorkspaceId::from_u64(id), status };
    let projects = vec![
        ProjectEntry { id: ProjectId::from_u64(1), workspaces: vec![w(10, WorkspaceStatus::Archived)] },
        ProjectEntry {
            id: ProjectId::from_u64(2),
            workspaces: vec![w(11, WorkspaceStatus::Active), w(10, WorkspaceStatus::Active)],
        },
        ProjectEntry { id: ProjectId::from_u64(3), workspaces: vec![w(10, WorkspaceStatus::Active)] },
    ];
    let at = |pane: MainPane| active_project_id(pane, &projects).map(|p| p.as_u64());
    assert_eq!(at(MainPane::ProjectSettings(ProjectId::from_u64(9))), Some(9));
    assert_eq!(at(MainPane::Workspace(WorkspaceId::from_u64(10))), Some(2));
    assert_eq!(at(MainPane::Workspace(WorkspaceId::from_u64(11))), Some(2));
    assert_eq!(at(MainPane::Workspace(WorkspaceId::from_u64(12))), None);
    assert_eq!(at(MainPane::Dashboard), Some(1));
    assert_eq!(at(MainPane::Nothing), Some(1));
    assert_eq!(active_project_id(MainPane::Dashboard, &Vec::new()), None);
    assert_eq!(sidebar_workspace_metadata("calm-river", Some("3m ago")), "calm-river \u{b7} 3m ago");
    assert_eq!(sidebar_workspace_metadata("calm-river", None), "calm-river");
}
