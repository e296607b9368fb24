use omcp::errors::ErrorKind;
use omcp::json::JsonValue;
use omcp::tools::{
    InitSuccess, MCPServer, MCPServerConfig, MCPTool, ToolInfo, ToolManager, TransportPlan,
};

fn tool(name: &str, enabled: bool) -> MCPTool {
    MCPTool {
        tool_info: ToolInfo {
            name: name.to_string(),
            description: Some(format!("{} description", name)),
            input_schema: "{}".to_string(),
        },
        enabled,
    }
}

fn provider(name: &str, tools: Vec<MCPTool>, connected: bool) -> MCPServer {
    MCPServer {
        config: MCPServerConfig::Stdio {
            name: name.to_string(),
            command: "node".to_string(),
            args: None,
            env: None,
            disabled: false,
        },
        connected,
        peer_info: None,
        tools,
    }
}

#[test]
fn get_tools_concatenates_in_provider_order() {
    let m = ToolManager::new(vec![
        provider("a", vec![tool("alpha", true), tool("beta", false)], true),
        provider("b", vec![tool("gamma", true)], true),
    ]);
    let all = m.get_tools();
    let names: Vec<&str> = all.iter().map(|t| t.tool_info.name.as_str()).collect();
    assert_eq!(names, vec!["alpha", "beta", "gamma"]);
}

#[test]
fn get_enabled_tools_filters_but_keeps_order() {
    let m = ToolManager::new(vec![
        provider("a", vec![tool("alpha", true), tool("beta", false)], true),
        provider("b", vec![tool("gamma", true)], true),
    ]);
    let enabled = m.get_enabled_tools();
    let names: Vec<&str> = enabled.iter().map(|t| t.tool_info.name.as_str()).collect();
    assert_eq!(names, vec!["alpha", "gamma"]);
}

#[test]
fn get_enabled_tools_is_idempotent() {
    let m = ToolManager::new(vec![
        provider("a", vec![tool("alpha", true), tool("beta", false)], true),
    ]);
    let first: Vec<String> = m
        .get_enabled_tools()
        .iter()
        .map(|t| t.tool_info.name.clone())
        .collect();
    let second: Vec<String> = m
        .get_enabled_tools()
        .iter()
        .map(|t| t.tool_info.name.clone())
        .collect();
    assert_eq!(first, second);
}

#[test]
fn set_tool_status_disables_then_restores_order() {
    let mut m = ToolManager::new(vec![
        provider("a", vec![tool("alpha", true), tool("beta", true)], true),
        provider("b", vec![tool("gamma", true)], true),
    ]);
    let before: Vec<String> = m
        .get_enabled_tools()
        .iter()
        .map(|t| t.tool_info.name.clone())
        .collect();
    assert!(m.set_tool_status("beta", false).is_ok());
    let during: Vec<String> = m
        .get_enabled_tools()
        .iter()
        .map(|t| t.tool_info.name.clone())
        .collect();
    assert_eq!(during, vec!["alpha".to_string(), "gamma".to_string()]);
    assert!(m.set_tool_status("beta", true).is_ok());
    let after: Vec<String> = m
        .get_enabled_tools()
        .iter()
        .map(|t| t.tool_info.name.clone())
        .collect();
    assert_eq!(before, after);
}

#[test]
fn set_tool_status_unknown_name_fails() {
    let mut m = ToolManager::new(vec![provider("a", vec![tool("alpha", true)], true)]);
    let err = m.set_tool_status("missing", false).unwrap_err();
    assert_eq!(err.kind, ErrorKind::Tool);
    assert_eq!(err.describe(), "Tool 'missing' not found.");
}

#[test]
fn call_tool_unknown_name_reports_not_found() {
    let m = ToolManager::new(vec![provider("a", vec![tool("alpha", true)], true)]);
    let args = JsonValue::Obj(vec![]);
    let err = m.call_tool("missing", &args).unwrap_err();
    assert_eq!(err.kind, ErrorKind::Tool);
    assert_eq!(err.describe(), "Tool 'missing' not found.");
}

#[test]
fn call_tool_rejects_non_object_arguments() {
    let m = ToolManager::new(vec![provider("a", vec![tool("alpha", true)], true)]);
    let args = JsonValue::Str("not an object".to_string());
    let err = m.call_tool("alpha", &args).unwrap_err();
    assert_eq!(err.kind, ErrorKind::Tool);
    assert_eq!(err.describe(), "Tool call arguments must be a JSON object.");
}

#[test]
fn call_tool_picks_the_first_provider_holding_the_name() {
    let m = ToolManager::new(vec![
        provider("a", vec![tool("beta", true)], true),
        provider("b", vec![tool("alpha", true)], true),
    ]);
    let args = JsonValue::Obj(vec![]);
    assert_eq!(m.call_tool("alpha", &args).unwrap(), 1);
    assert_eq!(m.call_tool("beta", &args).unwrap(), 0);
}

#[test]
fn call_tool_without_session_reports_not_initialized() {
    let m = ToolManager::new(vec![provider("a", vec![tool("alpha", true)], false)]);
    let args = JsonValue::Obj(vec![]);
    let err = m.call_tool("alpha", &args).unwrap_err();
    assert_eq!(
        err.describe(),
        "Provider for tool 'alpha' is not initialized."
    );
}

#[test]
fn disabled_provider_initialize_is_noop_success_and_invisible() {
    let mut s = MCPServer::new(MCPServerConfig::SSE {
        name: "svc".to_string(),
        url: "http://localhost:1".to_string(),
        headers: None,
        disabled: true,
    });
    assert!(s.plan_initialize().is_none());
    assert!(s.initialize(None).is_ok());
    assert!(!s.connected);
    assert!(s.tools.is_empty());
    let m = ToolManager::new(vec![s, provider("b", vec![tool("gamma", true)], true)]);
    let names: Vec<String> = m
        .get_tools()
        .iter()
        .map(|t| t.tool_info.name.clone())
        .collect();
    assert_eq!(names, vec!["gamma".to_string()]);
}

#[test]
fn plan_initialize_splits_environment_entries() {
    let s = MCPServer::new(MCPServerConfig::Stdio {
        name: "svc".to_string(),
        command: "python3".to_string(),
        args: Some(vec!["server".to_string()]),
        env: Some(vec![
            "KEY=value".to_string(),
            "broken".to_string(),
            "A=b=c".to_string(),
        ]),
        disabled: false,
    });
    match s.plan_initialize() {
        Some(TransportPlan::Stdio { command, args, env }) => {
            assert_eq!(command, "python3");
            assert_eq!(args, vec!["server".to_string()]);
            assert_eq!(
                env,
                vec![
                    ("KEY".to_string(), "value".to_string()),
                    ("A".to_string(), "b=c".to_string()),
                ]
            );
        }
        other => panic!("unexpected plan: {:?}", other),
    }
}

#[test]
fn initialize_success_caches_catalog_enabled() {
    let mut s = MCPServer::new(MCPServerConfig::Stdio {
        name: "svc".to_string(),
        command: "node".to_string(),
        args: None,
        env: None,
        disabled: false,
    });
    let outcome = InitSuccess {
        peer_info: "peer".to_string(),
        tools: vec![ToolInfo {
            name: "alpha".to_string(),
            description: None,
            input_schema: "{}".to_string(),
        }],
    };
    assert!(s.initialize(Some(Ok(outcome))).is_ok());
    assert!(s.connected);
    assert_eq!(s.peer_info.as_deref(), Some("peer"));
    assert_eq!(s.tools.len(), 1);
    assert!(s.tools[0].enabled);
    assert_eq!(s.tools[0].tool_info.name, "alpha");
}

#[test]
fn initialize_failure_leaves_provider_uninitialized() {
    let mut s = MCPServer::new(MCPServerConfig::Stdio {
        name: "svc".to_string(),
        command: "node".to_string(),
        args: None,
        env: None,
        disabled: false,
    });
    let err = omcp::errors::AppError::new(ErrorKind::Connection, "refused".to_string());
    assert!(s.initialize(Some(Err(err))).is_err());
    assert!(!s.connected);
    assert!(s.peer_info.is_none());
    assert!(s.tools.is_empty());
}
