use omcp::chat::{
    capabilities_from_list, ChatRound, ChunkOutcome, DispatchAction, ModelCaps, OllamaChat,
    RoundPhase,
};
use omcp::history::ChatHistory;
use omcp::json::JsonValue;
use omcp::message::{Message, MessageRole, ToolCall};
use omcp::settings::SettingsManager;

fn settings(confirmation: bool, verbose: bool) -> SettingsManager {
    let mut s = SettingsManager::default();
    s.tool_confirmation = confirmation;
    s.verbose_tool_calls = verbose;
    s
}

fn assistant_with_call(name: &str) -> Message {
    Message {
        role: MessageRole::Assistant,
        content: String::new(),
        thinking: None,
        tool_calls: vec![ToolCall {
            id: "1".to_string(),
            name: name.to_string(),
            arguments: JsonValue::Obj(vec![]),
        }],
    }
}

#[test]
fn history_order_equals_append_order() {
    let mut h = ChatHistory::new();
    h.push(Message::user("one".to_string()));
    h.push(Message::user("two".to_string()));
    h.append_all(vec![
        Message::tool("three".to_string()),
        Message::tool("four".to_string()),
    ]);
    let contents: Vec<&str> = h.get_history().iter().map(|m| m.content.as_str()).collect();
    assert_eq!(contents, vec!["one", "two", "three", "four"]);
    h.clear_messages();
    assert_eq!(h.len(), 0);
}

#[test]
fn capabilities_are_read_from_the_list() {
    let caps = capabilities_from_list(&vec!["completion".to_string(), "tools".to_string()]);
    assert!(caps.tools);
    assert!(!caps.thinking);
    let caps2 = capabilities_from_list(&vec!["thinking".to_string()]);
    assert!(!caps2.tools);
    assert!(caps2.thinking);
}

#[test]
fn host_is_parsed_with_optional_port() {
    let c = OllamaChat::new(Some("example.com:9999".to_string()));
    assert_eq!(c.host, "example.com");
    assert_eq!(c.port, 9999);
    let c2 = OllamaChat::new(Some("example.com".to_string()));
    assert_eq!(c2.host, "example.com");
    assert_eq!(c2.port, 11434);
    let c3 = OllamaChat::new(Some("example.com:notaport".to_string()));
    assert_eq!(c3.port, 11434);
    let c4 = OllamaChat::new(None);
    assert_eq!(c4.host, "http://127.0.0.1");
    assert_eq!(c4.port, 11434);
}

#[test]
fn chat_inserts_the_system_prompt_first() {
    let mut chat = OllamaChat::new(None);
    let mut s = settings(false, false);
    s.model_system_prompt = "be brief".to_string();
    let caps = ModelCaps { tools: false, thinking: false };
    let (_round, request) = chat.chat(&s, caps, vec![], vec![Message::user("hi".to_string())]);
    let msgs = chat.get_history();
    assert_eq!(msgs.len(), 2);
    assert!(matches!(msgs[0].role, MessageRole::System));
    assert_eq!(msgs[0].content, "be brief");
    assert_eq!(msgs[1].content, "hi");
    assert!(request.tools.is_empty());
    assert!(!request.think);
}

#[test]
fn chat_overwrites_an_existing_system_prompt() {
    let mut chat = OllamaChat::new(None);
    let mut s = settings(false, false);
    s.model_system_prompt = "first".to_string();
    let caps = ModelCaps { tools: false, thinking: false };
    let (_r1, _) = chat.chat(&s, caps, vec![], vec![Message::user("one".to_string())]);
    s.model_system_prompt = "second".to_string();
    let (_r2, _) = chat.chat(&s, caps, vec![], vec![Message::user("two".to_string())]);
    let msgs = chat.get_history();
    assert_eq!(msgs.len(), 3);
    assert!(matches!(msgs[0].role, MessageRole::System));
    assert_eq!(msgs[0].content, "second");
    assert_eq!(msgs[1].content, "one");
    assert_eq!(msgs[2].content, "two");
}

#[test]
fn scenario_plain_answer_is_emitted_and_recorded() {
    let mut chat = OllamaChat::new(None);
    let s = settings(false, false);
    let caps = ModelCaps { tools: false, thinking: false };
    let (mut round, _request) =
        chat.chat(&s, caps, vec![], vec![Message::user("hi".to_string())]);
    let reply = Message::plain(MessageRole::Assistant, "hello".to_string());
    match round.on_chunk(&mut chat.history, reply, true) {
        ChunkOutcome::Emit { content, thinking } => {
            assert_eq!(content, "hello");
            assert!(thinking.is_none());
        }
        ChunkOutcome::Dispatch => panic!("no tool calls were requested"),
    }
    round.on_stream_end();
    assert_eq!(round.phase, RoundPhase::Done);
    let msgs = chat.get_history();
    assert_eq!(msgs.len(), 2);
    assert!(matches!(msgs[0].role, MessageRole::User));
    assert_eq!(msgs[0].content, "hi");
    assert!(matches!(msgs[1].role, MessageRole::Assistant));
    assert_eq!(msgs[1].content, "hello");
}

#[test]
fn a_streamed_reply_accumulates_into_one_history_entry() {
    let mut chat = OllamaChat::new(None);
    let s = settings(false, false);
    let caps = ModelCaps { tools: false, thinking: false };
    let (mut round, _request) =
        chat.chat(&s, caps, vec![], vec![Message::user("hi".to_string())]);
    let mut emitted = String::new();
    for (piece, done) in [("hel", false), ("lo", true)] {
        let chunk = Message::plain(MessageRole::Assistant, piece.to_string());
        match round.on_chunk(&mut chat.history, chunk, done) {
            ChunkOutcome::Emit { content, .. } => emitted.push_str(&content),
            ChunkOutcome::Dispatch => panic!("no tool calls were requested"),
        }
    }
    round.on_stream_end();
    assert_eq!(emitted, "hello");
    let msgs = chat.get_history();
    assert_eq!(msgs.len(), 2);
    assert!(matches!(msgs[1].role, MessageRole::Assistant));
    assert_eq!(msgs[1].content, "hello");
}

#[test]
fn an_empty_final_chunk_leaves_no_extra_history_entry() {
    let mut chat = OllamaChat::new(None);
    let s = settings(false, false);
    let caps = ModelCaps { tools: false, thinking: false };
    let (mut round, _request) =
        chat.chat(&s, caps, vec![], vec![Message::user("hi".to_string())]);
    let first = Message::plain(MessageRole::Assistant, "hello".to_string());
    round.on_chunk(&mut chat.history, first, false);
    let last = Message::plain(MessageRole::Assistant, String::new());
    round.on_chunk(&mut chat.history, last, true);
    round.on_stream_end();
    let msgs = chat.get_history();
    assert_eq!(msgs.len(), 2);
    assert_eq!(msgs[1].content, "hello");
}

#[test]
fn streamed_thinking_accumulates_alongside_the_content() {
    let mut chat = OllamaChat::new(None);
    let s = settings(false, false);
    let caps = ModelCaps { tools: false, thinking: true };
    let (mut round, _request) =
        chat.chat(&s, caps, vec![], vec![Message::user("hi".to_string())]);
    let c1 = Message {
        role: MessageRole::Assistant,
        content: String::new(),
        thinking: Some("mulling ".to_string()),
        tool_calls: vec![],
    };
    round.on_chunk(&mut chat.history, c1, false);
    let c2 = Message {
        role: MessageRole::Assistant,
        content: "answer".to_string(),
        thinking: Some("it over".to_string()),
        tool_calls: vec![],
    };
    round.on_chunk(&mut chat.history, c2, true);
    let msgs = chat.get_history();
    assert_eq!(msgs.len(), 2);
    assert_eq!(msgs[1].content, "answer");
    assert_eq!(msgs[1].thinking.as_deref(), Some("mulling it over"));
}

#[test]
fn a_tool_call_completes_the_accumulated_message() {
    let mut chat = OllamaChat::new(None);
    let s = settings(false, false);
    let caps = ModelCaps { tools: true, thinking: false };
    let (mut round, _request) =
        chat.chat(&s, caps, vec![], vec![Message::user("go".to_string())]);
    let lead = Message::plain(MessageRole::Assistant, "Checking the time. ".to_string());
    round.on_chunk(&mut chat.history, lead, false);
    match round.on_chunk(&mut chat.history, assistant_with_call("get_time"), true) {
        ChunkOutcome::Dispatch => {}
        _ => panic!("the chunk carried a tool call"),
    }
    let msgs = chat.get_history();
    assert_eq!(msgs.len(), 2);
    assert_eq!(msgs[1].content, "Checking the time. ");
    assert_eq!(msgs[1].tool_calls.len(), 1);
}

#[test]
fn scenario_tool_call_runs_and_follow_up_round_is_issued() {
    let mut chat = OllamaChat::new(None);
    let s = settings(false, false);
    let caps = ModelCaps { tools: true, thinking: false };
    let (mut round, _request) =
        chat.chat(&s, caps, vec![], vec![Message::user("what time is it".to_string())]);
    match round.on_chunk(&mut chat.history, assistant_with_call("get_time"), true) {
        ChunkOutcome::Dispatch => {}
        _ => panic!("the chunk carried a tool call"),
    }
    assert_eq!(round.dispatch_step(&mut chat.history), DispatchAction::Invoke);
    round.on_tool_result(Ok("12:00".to_string()));
    assert_eq!(round.dispatch_step(&mut chat.history), DispatchAction::Followup);
    let final_reply = Message::plain(MessageRole::Assistant, "It is 12:00.".to_string());
    match round.on_chunk(&mut chat.history, final_reply, true) {
        ChunkOutcome::Emit { content, .. } => assert_eq!(content, "It is 12:00."),
        ChunkOutcome::Dispatch => panic!("the follow-up reply has no tool calls"),
    }
    round.on_stream_end();
    let msgs = chat.get_history();
    assert_eq!(msgs.len(), 4);
    assert!(matches!(msgs[1].role, MessageRole::Assistant));
    assert_eq!(msgs[1].tool_calls.len(), 1);
    assert!(matches!(msgs[2].role, MessageRole::Tool));
    assert_eq!(msgs[2].content, "12:00");
    assert_eq!(msgs[3].content, "It is 12:00.");
}

#[test]
fn scenario_declined_confirmation_never_invokes_the_tool() {
    let mut chat = OllamaChat::new(None);
    let s = settings(true, false);
    let caps = ModelCaps { tools: true, thinking: false };
    let (mut round, _request) =
        chat.chat(&s, caps, vec![], vec![Message::user("please call it".to_string())]);
    match round.on_chunk(&mut chat.history, assistant_with_call("get_time"), true) {
        ChunkOutcome::Dispatch => {}
        _ => panic!("the chunk carried a tool call"),
    }
    let mut invocations = 0;
    loop {
        match round.dispatch_step(&mut chat.history) {
            DispatchAction::RenderRequest => {}
            DispatchAction::AskConfirmation => round.on_confirmation(false),
            DispatchAction::Invoke => {
                invocations += 1;
                round.on_tool_result(Ok("never".to_string()));
            }
            DispatchAction::SkipInvalidArgs => {}
            DispatchAction::Followup => break,
        }
    }
    assert_eq!(invocations, 0);
    let msgs = chat.get_history();
    assert_eq!(msgs.len(), 3);
    assert!(matches!(msgs[2].role, MessageRole::Tool));
    assert_eq!(msgs[2].content, "Tool cancelled by user");
}

#[test]
fn non_object_arguments_are_skipped_without_a_message() {
    let mut chat = OllamaChat::new(None);
    let s = settings(false, false);
    let caps = ModelCaps { tools: true, thinking: false };
    let (mut round, _request) =
        chat.chat(&s, caps, vec![], vec![Message::user("go".to_string())]);
    let bad_call = Message {
        role: MessageRole::Assistant,
        content: String::new(),
        thinking: None,
        tool_calls: vec![ToolCall {
            id: "1".to_string(),
            name: "get_time".to_string(),
            arguments: JsonValue::Str("not an object".to_string()),
        }],
    };
    match round.on_chunk(&mut chat.history, bad_call, true) {
        ChunkOutcome::Dispatch => {}
        _ => panic!("the chunk carried a tool call"),
    }
    assert_eq!(
        round.dispatch_step(&mut chat.history),
        DispatchAction::SkipInvalidArgs
    );
    assert_eq!(round.dispatch_step(&mut chat.history), DispatchAction::Followup);
    assert_eq!(chat.get_history().len(), 2);
}

#[test]
fn stream_failure_ends_the_round() {
    let mut round = ChatRound::new(false, false);
    round.on_stream_error();
    assert_eq!(round.phase, RoundPhase::Done);
}

#[test]
fn request_attaches_tools_only_with_the_capability() {
    let mut chat = OllamaChat::new(None);
    let s = settings(false, false);
    let tools = vec![omcp::tools::ToolInfo {
        name: "get_time".to_string(),
        description: None,
        input_schema: "{}".to_string(),
    }];
    let caps = ModelCaps { tools: false, thinking: true };
    let (_round, request) = chat.chat(&s, caps, tools, vec![]);
    assert!(request.tools.is_empty());
    assert!(request.think);
    assert_eq!(request.model_name, s.model_name);
    assert_eq!(request.seed, 0);
    assert_eq!(request.temperature_hundredths, 80);
}
