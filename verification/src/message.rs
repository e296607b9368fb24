use vstd::prelude::*;
use crate::json::JsonValue;

verus! {

/// The role a conversation turn was produced under.
#[derive(Debug, Clone, Copy, PartialEq, Eq, Structural)]
pub enum MessageRole {
    System,
    User,
    Assistant,
    Tool,
}

/// One tool invocation requested by the model: an identifier, the name of
/// the function to call, and its JSON arguments (expected to be an object).
#[derive(Debug)]
pub struct ToolCall {
    pub id: String,
    pub name: String,
    pub arguments: JsonValue,
}

/// One turn of the conversation: a role, the visible text, the optional
/// model-internal "thinking" text, and the tool calls the model requested.
#[derive(Debug)]
pub struct Message {
    pub role: MessageRole,
    pub content: String,
    pub thinking: Option<String>,
    pub tool_calls: Vec<ToolCall>,
}

impl Message {
    /// A plain message with the given role and text, no thinking and no
    /// tool calls.
    pub fn plain(role: MessageRole, content: String) -> (r: Message)
        ensures
            r.role == role,
            r.content == content,
            r.thinking is None,
            r.tool_calls@.len() == 0,
    {
        Message { role, content, thinking: None, tool_calls: Vec::new() }
    }

    /// A system message with the given text.
    pub fn system(content: String) -> (r: Message)
        ensures
            r.role == MessageRole::System,
            r.content == content,
            r.thinking is None,
            r.tool_calls@.len() == 0,
    {
        Message::plain(MessageRole::System, content)
    }

    /// A user message with the given text.
    pub fn user(content: String) -> (r: Message)
        ensures
            r.role == MessageRole::User,
            r.content == content,
            r.thinking is None,
            r.tool_calls@.len() == 0,
    {
        Message::plain(MessageRole::User, content)
    }

    /// A tool-role message carrying a tool's serialized result.
    pub fn tool(content: String) -> (r: Message)
        ensures
            r.role == MessageRole::Tool,
            r.content == content,
            r.thinking is None,
            r.tool_calls@.len() == 0,
    {
        Message::plain(MessageRole::Tool, content)
    }
}

} // verus!
