use omcp::agent::{
    agent_system_prompt, plan_from_json, plan_generation_prompt, AgentMode, AgentStatus,
};
use omcp::chat::OllamaChat;
use omcp::json::JsonValue;
use omcp::message::MessageRole;

fn task_json(name: &str, description: &str, completed: bool) -> JsonValue {
    JsonValue::Obj(vec![
        ("name".to_string(), JsonValue::Str(name.to_string())),
        (
            "description".to_string(),
            JsonValue::Str(description.to_string()),
        ),
        ("completed".to_string(), JsonValue::Bool(completed)),
    ])
}

fn plan_json() -> JsonValue {
    JsonValue::Obj(vec![(
        "tasks".to_string(),
        JsonValue::Arr(vec![
            task_json("first", "do the first thing", false),
            task_json("second", "do the second thing", true),
        ]),
    )])
}

#[test]
fn a_new_planner_is_disabled_and_empty() {
    let a = AgentMode::new();
    assert!(matches!(a.get_status(), AgentStatus::Disabled));
    assert!(a.plan.tasks.is_empty());
}

#[test]
fn init_restarts_the_conversation_with_the_planning_prompt() {
    let mut a = AgentMode::new();
    let mut chat = OllamaChat::new(None);
    chat.history.push(omcp::message::Message::user("old".to_string()));
    a.init(&mut chat);
    assert!(matches!(a.get_status(), AgentStatus::Ready));
    assert!(!chat.use_system_prompt);
    let msgs = chat.get_history();
    assert_eq!(msgs.len(), 1);
    assert!(matches!(msgs[0].role, MessageRole::System));
    assert_eq!(msgs[0].content, agent_system_prompt());
}

#[test]
fn handle_prompt_fails_while_disabled() {
    let mut a = AgentMode::new();
    let err = a.handle_prompt("goal").unwrap_err();
    assert_eq!(err.describe(), "Agent mode is disabled");
}

#[test]
fn handle_prompt_sends_the_instruction_once() {
    let mut a = AgentMode::new();
    let mut chat = OllamaChat::new(None);
    a.init(&mut chat);
    let req = a.handle_prompt("build a site").unwrap().unwrap();
    assert!(matches!(a.get_status(), AgentStatus::Plan));
    assert_eq!(req.messages.len(), 2);
    assert!(matches!(req.messages[0].role, MessageRole::System));
    assert_eq!(req.messages[0].content, plan_generation_prompt());
    assert!(matches!(req.messages[1].role, MessageRole::User));
    assert_eq!(req.messages[1].content, "build a site");
    let refine = a.handle_prompt("add a footer").unwrap().unwrap();
    assert_eq!(refine.messages.len(), 1);
    assert_eq!(refine.messages[0].content, "add a footer");
}

#[test]
fn plan_from_json_reads_a_well_formed_plan() {
    let plan = plan_from_json(&plan_json()).unwrap();
    assert_eq!(plan.tasks.len(), 2);
    assert_eq!(plan.tasks[0].name, "first");
    assert_eq!(plan.tasks[0].description, "do the first thing");
    assert!(!plan.tasks[0].completed);
    assert!(plan.tasks[1].completed);
}

#[test]
fn plan_from_json_rejects_malformed_plans() {
    assert!(plan_from_json(&JsonValue::Str("no".to_string())).is_none());
    assert!(plan_from_json(&JsonValue::Obj(vec![])).is_none());
    let missing_field = JsonValue::Obj(vec![(
        "tasks".to_string(),
        JsonValue::Arr(vec![JsonValue::Obj(vec![(
            "name".to_string(),
            JsonValue::Str("only a name".to_string()),
        )])]),
    )]);
    assert!(plan_from_json(&missing_field).is_none());
}

#[test]
fn a_parsed_plan_replaces_the_plan_wholesale() {
    let mut a = AgentMode::new();
    let mut chat = OllamaChat::new(None);
    a.init(&mut chat);
    a.handle_prompt("goal").unwrap();
    assert!(a.apply_plan_response(Ok(plan_json())).is_ok());
    assert!(matches!(a.get_status(), AgentStatus::Plan));
    assert_eq!(a.plan.tasks.len(), 2);
}

#[test]
fn scenario_malformed_json_reverts_to_ready_and_keeps_the_plan() {
    let mut a = AgentMode::new();
    let mut chat = OllamaChat::new(None);
    a.init(&mut chat);
    a.handle_prompt("goal").unwrap();
    a.apply_plan_response(Ok(plan_json())).unwrap();
    a.handle_prompt("refine it").unwrap();
    let err = a
        .apply_plan_response(Ok(JsonValue::Str("{ not json".to_string())))
        .unwrap_err();
    assert_eq!(
        err.describe(),
        "Error parsing agent plan: the model output is not a plan"
    );
    assert!(matches!(a.get_status(), AgentStatus::Ready));
    assert_eq!(a.plan.tasks.len(), 2);
    assert_eq!(a.plan.tasks[0].name, "first");
}

#[test]
fn a_backend_failure_reverts_to_ready() {
    let mut a = AgentMode::new();
    let mut chat = OllamaChat::new(None);
    a.init(&mut chat);
    a.handle_prompt("goal").unwrap();
    let err = a
        .apply_plan_response(Err("connection refused".to_string()))
        .unwrap_err();
    assert_eq!(
        err.describe(),
        "Error generating agent plan: connection refused"
    );
    assert!(matches!(a.get_status(), AgentStatus::Ready));
    assert!(a.plan.tasks.is_empty());
}

#[test]
fn the_plan_renders_numbered_tasks() {
    let mut a = AgentMode::new();
    let mut chat = OllamaChat::new(None);
    a.init(&mut chat);
    a.handle_prompt("goal").unwrap();
    a.apply_plan_response(Ok(plan_json())).unwrap();
    let text = a.plan.render_plan(false);
    assert!(text.contains("0. first"));
    assert!(text.contains("1. second"));
    assert!(text.contains("do the first thing"));
    assert!(text.contains("Completed"));
    assert!(text.contains("Pending"));
}
