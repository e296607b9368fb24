use omcp::command::{parse_command, Command};
use omcp::config::{config_paths_from_args, load_mcp_server_from_args, Args};
use omcp::editor::{EditorKey, EditorStep, LineEditor};
use omcp::menu::{MenuChoice, MenuKey, MenuSelection, MenuToggle};
use omcp::model::{model_menu_choices, render_model_info, resolve_model_selection, ModelInfoData};
use omcp::tools::MCPServerConfig;

fn type_line(ed: &mut LineEditor, text: &str) {
    for c in text.chars() {
        ed.handle_key(EditorKey::Char(c));
    }
}

#[test]
fn typing_and_submitting_trims_the_line() {
    let mut ed = LineEditor::new(None, Vec::new());
    type_line(&mut ed, "  hello world ");
    match ed.handle_key(EditorKey::Enter) {
        EditorStep::Submitted(line) => assert_eq!(line, "hello world"),
        other => panic!("unexpected step: {:?}", other),
    }
    assert_eq!(ed.history, vec!["hello world".to_string()]);
}

#[test]
fn editing_keys_move_and_delete() {
    let mut ed = LineEditor::new(Some("abcd".to_string()), Vec::new());
    assert_eq!(ed.cursor, 4);
    ed.handle_key(EditorKey::Left);
    ed.handle_key(EditorKey::Left);
    ed.handle_key(EditorKey::Backspace);
    // "acd", cursor after 'a'
    ed.handle_key(EditorKey::Delete);
    // "ad"
    ed.handle_key(EditorKey::Home);
    ed.handle_key(EditorKey::Char('x'));
    match ed.handle_key(EditorKey::Enter) {
        EditorStep::Submitted(line) => assert_eq!(line, "xad"),
        other => panic!("unexpected step: {:?}", other),
    }
}

#[test]
fn control_keys_cancel_and_clear() {
    let mut ed = LineEditor::new(Some("abc".to_string()), Vec::new());
    assert!(matches!(ed.handle_key(EditorKey::CtrlC), EditorStep::Cancelled));
    ed.handle_key(EditorKey::CtrlU);
    assert!(ed.buffer.is_empty());
    assert_eq!(ed.cursor, 0);
}

#[test]
fn history_browsing_recalls_and_restores() {
    let history = vec!["first".to_string(), "second".to_string()];
    let mut ed = LineEditor::new(Some("draft".to_string()), history);
    ed.handle_key(EditorKey::Up);
    assert_eq!(ed.buffer.iter().collect::<String>(), "second");
    ed.handle_key(EditorKey::Up);
    assert_eq!(ed.buffer.iter().collect::<String>(), "first");
    ed.handle_key(EditorKey::Down);
    assert_eq!(ed.buffer.iter().collect::<String>(), "second");
    ed.handle_key(EditorKey::Down);
    assert_eq!(ed.buffer.iter().collect::<String>(), "draft");
    assert!(ed.history_index.is_none());
}

#[test]
fn blank_lines_and_repeats_stay_out_of_history() {
    let mut ed = LineEditor::new(Some("same".to_string()), vec!["same".to_string()]);
    match ed.handle_key(EditorKey::Enter) {
        EditorStep::Submitted(line) => assert_eq!(line, "same"),
        other => panic!("unexpected step: {:?}", other),
    }
    assert_eq!(ed.history.len(), 1);
    let mut ed2 = LineEditor::new(Some("   ".to_string()), Vec::new());
    ed2.handle_key(EditorKey::Enter);
    assert!(ed2.history.is_empty());
}

#[test]
fn the_oldest_entry_leaves_a_full_history() {
    let history: Vec<String> = (0..100).map(|i| format!("line{}", i)).collect();
    let mut ed = LineEditor::new(Some("newest".to_string()), history);
    ed.handle_key(EditorKey::Enter);
    assert_eq!(ed.history.len(), 100);
    assert_eq!(ed.history[0], "line1");
    assert_eq!(ed.history[99], "newest");
}

#[test]
fn shortcuts_are_marked_in_menu_labels() {
    let c = MenuChoice { name: "Yes".to_string(), shortcut: 'Y' };
    assert_eq!(c.to_display_string(), "[Y]es");
    let c2 = MenuChoice { name: "Continue".to_string(), shortcut: 't' };
    assert_eq!(c2.to_display_string(), "Con[t]inue");
    let c3 = MenuChoice { name: "Option".to_string(), shortcut: '#' };
    assert_eq!(c3.to_display_string(), "Option");
}

#[test]
fn menu_selection_moves_within_bounds_and_jumps_to_shortcuts() {
    let choices = vec![
        MenuChoice { name: "Yes".to_string(), shortcut: 'Y' },
        MenuChoice { name: "No".to_string(), shortcut: 'N' },
    ];
    let mut m = MenuSelection::new(choices, true);
    assert!(m.handle_key(MenuKey::Up).is_none());
    assert_eq!(m.current, 0);
    m.handle_key(MenuKey::Down);
    assert_eq!(m.current, 1);
    m.handle_key(MenuKey::Down);
    assert_eq!(m.current, 1);
    m.handle_key(MenuKey::Char('y'));
    assert_eq!(m.current, 0);
    assert_eq!(m.handle_key(MenuKey::Enter), Some(0));
}

#[test]
fn menu_toggle_flips_the_highlighted_flag() {
    let items = vec![
        (MenuChoice { name: "alpha".to_string(), shortcut: '#' }, true),
        (MenuChoice { name: "beta".to_string(), shortcut: '#' }, false),
    ];
    let mut m = MenuToggle::new(items);
    assert!(!m.handle_key(MenuKey::Down));
    assert!(!m.handle_key(MenuKey::Char(' ')));
    assert!(m.handle_key(MenuKey::Enter));
    assert!(m.items[0].1);
    assert!(m.items[1].1);
}

#[test]
fn commands_parse_as_the_loop_dispatches_them() {
    assert!(parse_command("hello there").is_none());
    assert!(parse_command("").is_none());
    assert!(matches!(parse_command("/quit"), Some(Command::Quit)));
    assert!(matches!(parse_command("/QUIT"), Some(Command::Quit)));
    assert!(matches!(parse_command("/clear"), Some(Command::Clear)));
    assert!(matches!(parse_command("/history"), Some(Command::History)));
    assert!(matches!(parse_command("/tools show"), Some(Command::ToolsShow)));
    match parse_command("/tools toggle get_time") {
        Some(Command::ToolsToggle(Some(name))) => assert_eq!(name, "get_time"),
        other => panic!("unexpected: {:?}", other),
    }
    assert!(matches!(parse_command("/tools toggle"), Some(Command::ToolsToggle(None))));
    assert!(matches!(parse_command("/tools"), Some(Command::ToolsUsage)));
    assert!(matches!(parse_command("/settings show"), Some(Command::SettingsShow)));
    assert!(matches!(parse_command("/settings edit"), Some(Command::SettingsEdit)));
    assert!(matches!(parse_command("/settings save"), Some(Command::SettingsSave)));
    assert!(matches!(parse_command("/settings nonsense"), Some(Command::SettingsUsage)));
    match parse_command("/model info llama3") {
        Some(Command::ModelInfo(Some(m))) => assert_eq!(m, "llama3"),
        other => panic!("unexpected: {:?}", other),
    }
    assert!(matches!(parse_command("/model select"), Some(Command::ModelSelect(None))));
    assert!(matches!(parse_command("/model load x"), Some(Command::ModelLoad(Some(_)))));
    assert!(matches!(parse_command("/model unload"), Some(Command::ModelUnload(None))));
    assert!(matches!(parse_command("/model pull m"), Some(Command::ModelPull(Some(_)))));
    assert!(matches!(parse_command("/model"), Some(Command::ModelUsage)));
    assert!(matches!(parse_command("/help"), Some(Command::Help)));
    match parse_command("/bogus") {
        Some(Command::Unknown(word)) => assert_eq!(word, "/bogus"),
        other => panic!("unexpected: {:?}", other),
    }
}

#[test]
fn direct_flags_register_providers_in_order() {
    let args = Args {
        stdio_server: vec![
            "tools/clock.py".to_string(),
            "tools/files.js".to_string(),
            "README".to_string(),
        ],
        sse_server: vec!["http://sse.example".to_string()],
        streamable_http_server: vec!["http://http.example".to_string()],
        json_mcp_config: vec![],
        model: None,
        config: None,
        ollama_host: None,
        prompt: None,
    };
    let servers = load_mcp_server_from_args(&args);
    assert_eq!(servers.len(), 4);
    match &servers[0].config {
        MCPServerConfig::Stdio { name, command, args, .. } => {
            assert_eq!(name, "tools/clock");
            assert_eq!(command, "python3");
            assert_eq!(args.as_deref(), Some(&["tools/clock".to_string()][..]));
        }
        other => panic!("unexpected config: {:?}", other),
    }
    match &servers[1].config {
        MCPServerConfig::Stdio { command, .. } => assert_eq!(command, "node"),
        other => panic!("unexpected config: {:?}", other),
    }
    assert!(matches!(&servers[2].config, MCPServerConfig::SSE { .. }));
    assert!(matches!(
        &servers[3].config,
        MCPServerConfig::StreamableHttp { .. }
    ));
}

#[test]
fn config_paths_fall_back_to_the_default() {
    let mut args = Args {
        stdio_server: vec![],
        sse_server: vec![],
        streamable_http_server: vec![],
        json_mcp_config: vec![],
        model: None,
        config: None,
        ollama_host: None,
        prompt: None,
    };
    assert_eq!(
        config_paths_from_args(&args, "/default/mcp_servers.json".to_string()),
        vec!["/default/mcp_servers.json".to_string()]
    );
    args.json_mcp_config = vec!["/a.json".to_string(), "/b.json".to_string()];
    assert_eq!(
        config_paths_from_args(&args, "/default/mcp_servers.json".to_string()),
        vec!["/a.json".to_string(), "/b.json".to_string()]
    );
}

#[test]
fn model_pickers_offer_other_and_resolve() {
    let models = vec!["a".to_string(), "b".to_string()];
    let choices = model_menu_choices(&models);
    assert_eq!(choices.len(), 3);
    assert_eq!(choices[2].name, "Other");
    assert_eq!(
        resolve_model_selection(&models, 1, "typed".to_string()),
        "b"
    );
    assert_eq!(
        resolve_model_selection(&models, 2, "typed".to_string()),
        "typed"
    );
}

#[test]
fn model_info_renders_parameters_and_capabilities() {
    let info = ModelInfoData {
        parameter_count: Some("8000000000".to_string()),
        size_label: Some("8B".to_string()),
        capabilities: vec!["completion".to_string(), "tools".to_string()],
    };
    let text = render_model_info("llama3:8b", &Some(info));
    assert!(text.contains("Model Name: llama3:8b"));
    assert!(text.contains("Parameters: 8000000000 (8B)"));
    assert!(text.contains("- completion\n"));
    assert!(text.contains("- tools\n"));
    assert_eq!(
        render_model_info("x", &None),
        "Unable to retrieve model info"
    );
}
