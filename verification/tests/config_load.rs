use omcp::config::load_mcp_servers_from_config;
use omcp::json::JsonValue;
use omcp::present::{render_available_tools, render_tool_call_result, ThinkingTracker};
use omcp::tools::{MCPServerConfig, MCPTool, ToolInfo};

fn obj(fields: Vec<(&str, JsonValue)>) -> JsonValue {
    JsonValue::Obj(
        fields
            .into_iter()
            .map(|(k, v)| (k.to_string(), v))
            .collect(),
    )
}

fn s(text: &str) -> JsonValue {
    JsonValue::Str(text.to_string())
}

#[test]
fn a_full_configuration_loads_every_server() {
    let config = obj(vec![(
        "mcpServers",
        obj(vec![
            (
                "clock",
                obj(vec![
                    ("command", s("python3")),
                    ("args", JsonValue::Arr(vec![s("clock.py")])),
                    ("env", JsonValue::Arr(vec![s("TZ=UTC")])),
                ]),
            ),
            (
                "events",
                obj(vec![
                    ("type", s("sse")),
                    ("url", s("http://sse.example")),
                    ("headers", obj(vec![("authorization", s("SECRET-REDACTED"))])),
                    ("disabled", JsonValue::Bool(true)),
                ]),
            ),
            ("web", obj(vec![("url", s("http://web.example"))])),
        ]),
    )]);
    let servers = load_mcp_servers_from_config(&config).unwrap();
    assert_eq!(servers.len(), 3);
    match &servers[0].config {
        MCPServerConfig::Stdio { name, command, args, env, disabled } => {
            assert_eq!(name, "clock");
            assert_eq!(command, "python3");
            assert_eq!(args.as_deref(), Some(&["clock.py".to_string()][..]));
            assert_eq!(env.as_deref(), Some(&["TZ=UTC".to_string()][..]));
            assert!(!disabled);
        }
        other => panic!("unexpected config: {:?}", other),
    }
    match &servers[1].config {
        MCPServerConfig::SSE { url, headers, disabled, .. } => {
            assert_eq!(url, "http://sse.example");
            assert_eq!(
                headers.as_deref(),
                Some(
                    &[("authorization".to_string(), "SECRET-REDACTED".to_string())][..]
                )
            );
            assert!(disabled);
        }
        other => panic!("unexpected config: {:?}", other),
    }
    match &servers[2].config {
        MCPServerConfig::StreamableHttp { url, .. } => {
            assert_eq!(url, "http://web.example");
        }
        other => panic!("unexpected config: {:?}", other),
    }
    assert!(servers.iter().all(|srv| !srv.connected && srv.tools.is_empty()));
}

#[test]
fn a_configuration_without_the_servers_key_is_rejected() {
    let err = load_mcp_servers_from_config(&obj(vec![])).unwrap_err();
    assert_eq!(err.describe(), "Missing 'mcpServers' key in configuration");
    let err2 = load_mcp_servers_from_config(&obj(vec![("mcpServers", s("oops"))])).unwrap_err();
    assert_eq!(err2.describe(), "'mcpServers' should be a JSON object");
}

#[test]
fn an_entry_without_required_fields_is_rejected_naming_the_server() {
    let config = obj(vec![(
        "mcpServers",
        obj(vec![("empty", obj(vec![]))]),
    )]);
    assert_eq!(
        load_mcp_servers_from_config(&config).unwrap_err().describe(),
        "Invalid server configuration: missing required fields"
    );
    let config2 = obj(vec![(
        "mcpServers",
        obj(vec![("odd", obj(vec![("type", s("stdio"))]))]),
    )]);
    assert_eq!(
        load_mcp_servers_from_config(&config2).unwrap_err().describe(),
        "Server 'odd' is missing required 'command' field"
    );
    let config3 = obj(vec![(
        "mcpServers",
        obj(vec![("bare", obj(vec![("type", s("sse"))]))]),
    )]);
    assert_eq!(
        load_mcp_servers_from_config(&config3).unwrap_err().describe(),
        "Server 'bare' is missing required 'url' field"
    );
    let config4 = obj(vec![(
        "mcpServers",
        obj(vec![("weird", obj(vec![("type", s("carrier-pigeon")), ("url", s("x"))]))]),
    )]);
    assert_eq!(
        load_mcp_servers_from_config(&config4).unwrap_err().describe(),
        "Unknown server type 'carrier-pigeon' for server 'weird'"
    );
}

#[test]
fn the_tool_catalog_renders_checkmarks() {
    let tools = vec![
        MCPTool {
            tool_info: ToolInfo {
                name: "get_time".to_string(),
                description: Some("tells the time".to_string()),
                input_schema: "{}".to_string(),
            },
            enabled: true,
        },
        MCPTool {
            tool_info: ToolInfo {
                name: "quiet".to_string(),
                description: None,
                input_schema: "{}".to_string(),
            },
            enabled: false,
        },
    ];
    let text = render_available_tools(&tools);
    assert!(text.contains("get_time"));
    assert!(text.contains("tells the time"));
    assert!(text.contains("No description available"));
    assert!(text.contains("Available Tools"));
    let empty = render_available_tools(&Vec::new());
    assert!(empty.contains("No tools available"));
}

#[test]
fn tool_results_are_boxed_under_their_title() {
    let text = render_tool_call_result("{\n  \"time\": \"12:00\"\n}");
    assert!(text.contains("Tool Call Result"));
    assert!(text.contains("\"time\": \"12:00\""));
}

#[test]
fn thinking_tags_open_and_close_once() {
    let mut t = ThinkingTracker::new();
    let p1 = t.on_chunk(&String::new(), &Some("mull".to_string()), true);
    assert!(p1.open_tag);
    assert_eq!(p1.thinking_text.as_deref(), Some("mull"));
    assert!(!p1.close_tag);
    let p2 = t.on_chunk(&String::new(), &Some("more".to_string()), true);
    assert!(!p2.open_tag);
    let p3 = t.on_chunk(&"answer".to_string(), &None, true);
    assert!(p3.close_tag);
    assert_eq!(p3.content_text.as_deref(), Some("answer"));
    let p4 = t.on_chunk(&"quiet".to_string(), &Some("hidden".to_string()), false);
    assert!(!p4.open_tag);
    assert!(p4.thinking_text.is_none());
}
