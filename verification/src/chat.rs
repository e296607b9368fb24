use vstd::prelude::*;
use crate::history::ChatHistory;
use crate::message::{Message, MessageRole};
use crate::settings::SettingsManager;
use crate::strutil::{parse_u16, spec_parse_u16, spec_split_once, split_once_char};
use crate::tools::ToolInfo;

verus! {

/// Whether some string of a list holds exactly the given characters.
pub open spec fn has_string(v: Seq<String>, s: Seq<char>) -> bool {
    exists|i: int| 0 <= i < v.len() && v[i]@ == s
}

/// The capability flags of the configured model, as the backend reports
/// them: whether it takes tool schemas and whether it produces "thinking"
/// segments. Features a model does not declare are never attached to a
/// request.
#[derive(Debug, Clone, Copy, PartialEq, Eq, Structural)]
pub struct ModelCaps {
    pub tools: bool,
    pub thinking: bool,
}

/// Reads the capability flags out of the capability names the backend
/// listed for the model.
pub fn capabilities_from_list(caps: &Vec<String>) -> (r: ModelCaps)
    ensures
        r.tools == has_string(caps@, "tools"@),
        r.thinking == has_string(caps@, "thinking"@),
{
    let mut tools = false;
    let mut thinking = false;
    let n = caps.len();
    let mut i: usize = 0;
    while i < n
        invariant
            n == caps@.len(),
            0 <= i <= n,
            tools == (exists|j: int| 0 <= j < i && caps@[j]@ == "tools"@),
            thinking == (exists|j: int| 0 <= j < i && caps@[j]@ == "thinking"@),
        decreases n - i,
    {
        if crate::strutil::string_eq_str(&caps[i], "tools") {
            tools = true;
        }
        if crate::strutil::string_eq_str(&caps[i], "thinking") {
            thinking = true;
        }
        i = i + 1;
    }
    ModelCaps { tools, thinking }
}

/// One generation request: the model, its sampling options, the tool
/// schemas attached (empty unless the model declared tool support), and
/// whether thinking was requested. The conversation itself is read from the
/// shared history when the stream is opened.
#[derive(Debug)]
pub struct ChatRequest {
    pub model_name: String,
    pub seed: i32,
    pub temperature_hundredths: i32,
    pub tools: Vec<ToolInfo>,
    pub think: bool,
}

/// Where a chat round stands: consuming the stream, dispatching the tool
/// calls of the latest assistant message, waiting for the user's yes or no,
/// waiting for a tool's result, or finished.
#[derive(Debug, Clone, Copy, PartialEq, Eq, Structural)]
pub enum RoundPhase {
    Streaming,
    Dispatching,
    AwaitingConfirmation,
    AwaitingTool,
    Done,
}

/// What the consumer must do with one received chunk: forward its text (and
/// its thinking, separately) to the output channel, or start dispatching
/// the tool calls it carried.
#[derive(Debug)]
pub enum ChunkOutcome {
    Emit { content: String, thinking: Option<String> },
    Dispatch,
}

/// The next piece of outside work a dispatching round asks for.
#[derive(Debug, Clone, Copy, PartialEq, Eq, Structural)]
pub enum DispatchAction {
    /// The current call's arguments were not a JSON object; it was skipped
    /// and only deserves a log line.
    SkipInvalidArgs,
    /// Render the current call to the user, then step again.
    RenderRequest,
    /// Block on the user's yes or no for the current call.
    AskConfirmation,
    /// Forward the current call to its provider.
    Invoke,
    /// Every call was handled; the collected tool messages are in history,
    /// and a follow-up stream must be opened against it.
    Followup,
}

/// The thinking text accumulated after one more chunk: absent until some
/// chunk carries thinking, then the concatenation of every thinking
/// segment seen.
pub open spec fn spec_fold_thinking(acc: Option<String>, chunk: Option<String>) -> Option<
    Seq<char>,
> {
    match (acc, chunk) {
        (None, None) => None,
        (Some(a), None) => Some(a@),
        (None, Some(t)) => Some(t@),
        (Some(a), Some(t)) => Some(a@ + t@),
    }
}

/// One user-visible request round: it owns the in-flight assistant message
/// being accumulated from the stream, the dispatch position within the
/// assistant message being handled, and the tool messages collected so far.
/// The round is driven with events — a chunk, a confirmation answer, a tool
/// outcome, the stream's end — and answers with the action the surrounding
/// loop must take, so the decisions here are checked while the streaming
/// and the tool transport stay outside.
#[derive(Debug)]
pub struct ChatRound {
    pub phase: RoundPhase,
    pub verbose_tool_calls: bool,
    pub tool_confirmation: bool,
    pub acc_content: String,
    pub acc_thinking: Option<String>,
    pub inflight: bool,
    pub msg_index: usize,
    pub call_index: usize,
    pub rendered: bool,
    pub confirmed: bool,
    pub tool_messages: Vec<Message>,
}

impl ChatRound {
    /// How the round relates to the history it walks: whenever the round is
    /// mid-dispatch, it points at a recorded message and at most one past
    /// its last tool call; whenever an in-flight assistant message stands
    /// in history, history is not empty (the in-flight message is its
    /// newest turn).
    pub open spec fn wf(&self, history: &ChatHistory) -> bool {
        &&& (self.phase is Dispatching || self.phase is AwaitingConfirmation || self.phase
            is AwaitingTool) ==> {
            &&& (self.msg_index as int) < history.messages@.len()
            &&& (self.call_index as int) <= history.messages@[self.msg_index as int].tool_calls@.len()
            &&& (self.phase is AwaitingConfirmation || self.phase is AwaitingTool) ==> (
            self.call_index as int) < history.messages@[self.msg_index as int].tool_calls@.len()
        }
        &&& self.inflight ==> history.messages@.len() > 0
    }

    /// A round that is consuming its stream, has accumulated nothing and
    /// has dispatched nothing yet.
    pub fn new(verbose_tool_calls: bool, tool_confirmation: bool) -> (r: ChatRound)
        ensures
            r.phase is Streaming,
            r.verbose_tool_calls == verbose_tool_calls,
            r.tool_confirmation == tool_confirmation,
            r.acc_content@.len() == 0,
            r.acc_thinking is None,
            !r.inflight,
            r.tool_messages@.len() == 0,
    {
        ChatRound {
            phase: RoundPhase::Streaming,
            verbose_tool_calls,
            tool_confirmation,
            acc_content: String::new(),
            acc_thinking: None,
            inflight: false,
            msg_index: 0,
            call_index: 0,
            rendered: false,
            confirmed: false,
            tool_messages: Vec::new(),
        }
    }

    /// Takes one received chunk and maintains the accumulating assistant
    /// message: the chunk's content and thinking are folded into it, and
    /// history is updated exactly once per chunk boundary — the in-flight
    /// entry is replaced by the fuller accumulated message, or the message
    /// is appended when none stands yet. The chunk's own text (and
    /// thinking, separately) is forwarded to the caller when no tool call
    /// is pending; a chunk that carries tool calls turns the round to
    /// dispatching them instead. Once the message is complete — the stream
    /// said so, or tool calls arrived — the accumulator is cleared for the
    /// next assistant message.
    pub fn on_chunk(&mut self, history: &mut ChatHistory, msg: Message, done: bool) -> (r:
        ChunkOutcome)
        requires
            old(self).phase is Streaming,
            old(self).wf(old(history)),
        ensures
            final(self).wf(final(history)),
            final(self).verbose_tool_calls == old(self).verbose_tool_calls,
            final(self).tool_confirmation == old(self).tool_confirmation,
            ({
                let folded_content = old(self).acc_content@ + msg.content@;
                let folded_thinking = spec_fold_thinking(old(self).acc_thinking, msg.thinking);
                let idx = if old(self).inflight {
                    old(history).messages@.len() - 1
                } else {
                    old(history).messages@.len() as int
                };
                &&& final(history).messages@.len() == idx + 1
                &&& (forall|k: int|
                    0 <= k < idx ==> final(history).messages@[k] == old(history).messages@[k])
                &&& final(history).messages@[idx].role == msg.role
                &&& final(history).messages@[idx].content@ == folded_content
                &&& crate::render::opt_str_view(final(history).messages@[idx].thinking)
                    == folded_thinking
                &&& final(history).messages@[idx].tool_calls@ == msg.tool_calls@
                &&& if msg.tool_calls@.len() > 0 {
                    &&& r is Dispatch
                    &&& final(self).phase is Dispatching
                    &&& final(self).msg_index as int == idx
                    &&& final(self).call_index == 0
                    &&& !final(self).rendered
                    &&& !final(self).confirmed
                    &&& !final(self).inflight
                    &&& final(self).acc_content@.len() == 0
                    &&& final(self).acc_thinking is None
                    &&& final(self).tool_messages@ == old(self).tool_messages@
                } else {
                    &&& (r matches ChunkOutcome::Emit { content, thinking } && content@
                        == msg.content@ && (match thinking {
                        Some(t) => msg.thinking matches Some(mt) && t@ == mt@,
                        None => msg.thinking is None,
                    }))
                    &&& final(self).phase is Streaming
                    &&& final(self).tool_messages@ == old(self).tool_messages@
                    &&& if done {
                        &&& !final(self).inflight
                        &&& final(self).acc_content@.len() == 0
                        &&& final(self).acc_thinking is None
                    } else {
                        &&& final(self).inflight
                        &&& final(self).acc_content@ == folded_content
                        &&& crate::render::opt_str_view(final(self).acc_thinking)
                            == folded_thinking
                    }
                }
            }),
    {
        let Message { role, content, thinking, tool_calls } = msg;
        let has_calls = tool_calls.len() > 0;
        let emit_content = content.clone();
        let emit_thinking = match &thinking {
            Some(t) => Some(t.clone()),
            None => None,
        };
        self.acc_content.append(content.as_str());
        let mut prev_thinking: Option<String> = None;
        core::mem::swap(&mut prev_thinking, &mut self.acc_thinking);
        let folded_thinking: Option<String> = match (prev_thinking, thinking) {
            (None, None) => None,
            (Some(a), None) => Some(a),
            (None, Some(t)) => Some(t),
            (Some(a), Some(t)) => {
                let mut joined = a;
                joined.append(t.as_str());
                Some(joined)
            },
        };
        let complete = has_calls || done;
        let (m_content, m_thinking): (String, Option<String>) = if complete {
            let mut c = String::new();
            core::mem::swap(&mut c, &mut self.acc_content);
            (c, folded_thinking)
        } else {
            let c = self.acc_content.clone();
            let t = match &folded_thinking {
                Some(x) => Some(x.clone()),
                None => None,
            };
            self.acc_thinking = folded_thinking;
            (c, t)
        };
        let m = Message { role, content: m_content, thinking: m_thinking, tool_calls };
        let idx = if self.inflight {
            history.len() - 1
        } else {
            history.len()
        };
        if self.inflight {
            history.replace_last(m);
        } else {
            history.push(m);
        }
        if has_calls {
            self.phase = RoundPhase::Dispatching;
            self.msg_index = idx;
            self.call_index = 0;
            self.rendered = false;
            self.confirmed = false;
            self.inflight = false;
            ChunkOutcome::Dispatch
        } else {
            self.inflight = !done;
            ChunkOutcome::Emit { content: emit_content, thinking: emit_thinking }
        }
    }

    /// The tool call the round currently stands at.
    pub fn current_call<'a>(&self, history: &'a ChatHistory) -> (r: &'a crate::message::ToolCall)
        requires
            self.phase is Dispatching || self.phase is AwaitingConfirmation || self.phase
                is AwaitingTool,
            self.wf(history),
            (self.call_index as int) < history.messages@[self.msg_index as int].tool_calls@.len(),
        ensures
            *r == history.messages@[self.msg_index as int].tool_calls@[self.call_index as int],
    {
        &history.messages[self.msg_index].tool_calls[self.call_index]
    }

    /// Decides the next step for the call the round stands at, in request
    /// order: a call whose arguments are not a JSON object is skipped; a
    /// call is rendered once when verbosity or confirmation ask for it;
    /// with confirmation on, the user is asked before the call is
    /// forwarded; otherwise the call is forwarded. Once every call is
    /// handled, the collected tool messages are appended to history, in
    /// order, and a follow-up stream is requested.
    pub fn dispatch_step(&mut self, history: &mut ChatHistory) -> (r: DispatchAction)
        requires
            old(self).phase is Dispatching,
            old(self).wf(old(history)),
        ensures
            final(self).wf(final(history)),
            final(self).verbose_tool_calls == old(self).verbose_tool_calls,
            final(self).tool_confirmation == old(self).tool_confirmation,
            final(self).inflight == old(self).inflight,
            final(self).acc_content == old(self).acc_content,
            final(self).acc_thinking == old(self).acc_thinking,
            ({
                let calls = old(history).messages@[old(self).msg_index as int].tool_calls@;
                if old(self).call_index as int == calls.len() {
                    &&& r is Followup
                    &&& final(history).messages@ == old(history).messages@ + old(
                        self,
                    ).tool_messages@
                    &&& final(self).phase is Streaming
                    &&& final(self).tool_messages@.len() == 0
                } else {
                    ({
                        let call = calls[old(self).call_index as int];
                        &&& final(history).messages@ == old(history).messages@
                        &&& final(self).msg_index == old(self).msg_index
                        &&& if !(call.arguments is Obj) {
                            &&& r is SkipInvalidArgs
                            &&& final(self).phase is Dispatching
                            &&& final(self).call_index as int == old(self).call_index + 1
                            &&& !final(self).rendered
                            &&& !final(self).confirmed
                            &&& final(self).tool_messages@ == old(self).tool_messages@
                        } else if (old(self).verbose_tool_calls || old(self).tool_confirmation)
                            && !old(self).rendered {
                            &&& r is RenderRequest
                            &&& final(self).phase is Dispatching
                            &&& final(self).call_index == old(self).call_index
                            &&& final(self).rendered
                            &&& final(self).confirmed == old(self).confirmed
                            &&& final(self).tool_messages@ == old(self).tool_messages@
                        } else if old(self).tool_confirmation && !old(self).confirmed {
                            &&& r is AskConfirmation
                            &&& final(self).phase is AwaitingConfirmation
                            &&& final(self).call_index == old(self).call_index
                            &&& final(self).rendered == old(self).rendered
                            &&& final(self).confirmed == old(self).confirmed
                            &&& final(self).tool_messages@ == old(self).tool_messages@
                        } else {
                            &&& r is Invoke
                            &&& final(self).phase is AwaitingTool
                            &&& final(self).call_index == old(self).call_index
                            &&& final(self).rendered == old(self).rendered
                            &&& final(self).confirmed == old(self).confirmed
                            &&& final(self).tool_messages@ == old(self).tool_messages@
                        }
                    })
                }
            }),
    {
        let n_calls = history.messages[self.msg_index].tool_calls.len();
        if self.call_index == n_calls {
            let mut msgs: Vec<Message> = Vec::new();
            core::mem::swap(&mut msgs, &mut self.tool_messages);
            history.append_all(msgs);
            self.phase = RoundPhase::Streaming;
            return DispatchAction::Followup;
        }
        let call_is_object = history.messages[self.msg_index].tool_calls[self.call_index]
            .arguments
            .is_object();
        if !call_is_object {
            self.call_index = self.call_index + 1;
            self.rendered = false;
            self.confirmed = false;
            return DispatchAction::SkipInvalidArgs;
        }
        if (self.verbose_tool_calls || self.tool_confirmation) && !self.rendered {
            self.rendered = true;
            return DispatchAction::RenderRequest;
        }
        if self.tool_confirmation && !self.confirmed {
            self.phase = RoundPhase::AwaitingConfirmation;
            return DispatchAction::AskConfirmation;
        }
        self.phase = RoundPhase::AwaitingTool;
        DispatchAction::Invoke
    }

    /// Takes the user's answer to the confirmation prompt. "No" never lets
    /// the tool be invoked: a synthetic "Tool cancelled by user" tool
    /// message is collected in its place and the round moves to the next
    /// call. "Yes" marks the call confirmed, so the next step forwards it.
    pub fn on_confirmation(&mut self, yes: bool)
        requires
            old(self).phase is AwaitingConfirmation,
            old(self).call_index < usize::MAX,
        ensures
            final(self).phase is Dispatching,
            final(self).verbose_tool_calls == old(self).verbose_tool_calls,
            final(self).tool_confirmation == old(self).tool_confirmation,
            final(self).msg_index == old(self).msg_index,
            final(self).inflight == old(self).inflight,
            final(self).acc_content == old(self).acc_content,
            final(self).acc_thinking == old(self).acc_thinking,
            yes ==> {
                &&& final(self).call_index == old(self).call_index
                &&& final(self).rendered == old(self).rendered
                &&& final(self).confirmed
                &&& final(self).tool_messages@ == old(self).tool_messages@
            },
            !yes ==> {
                &&& final(self).call_index as int == old(self).call_index + 1
                &&& !final(self).rendered
                &&& !final(self).confirmed
                &&& final(self).tool_messages@.len() == old(self).tool_messages@.len() + 1
                &&& (forall|k: int|
                    0 <= k < old(self).tool_messages@.len() ==> final(self).tool_messages@[k]
                        == old(self).tool_messages@[k])
                &&& final(self).tool_messages@.last().role is Tool
                &&& final(self).tool_messages@.last().content@ == "Tool cancelled by user"@
                &&& final(self).tool_messages@.last().tool_calls@.len() == 0
            },
    {
        if yes {
            self.confirmed = true;
        } else {
            self.tool_messages.push(
                Message::tool(String::from_str("Tool cancelled by user")),
            );
            self.call_index = self.call_index + 1;
            self.rendered = false;
            self.confirmed = false;
        }
        self.phase = RoundPhase::Dispatching;
    }

    /// Takes what came back from the invoked tool. A result is serialized
    /// by the transport layer and collected as a tool message; a failure is
    /// only logged, and no message is collected for that call. Either way
    /// the round moves to the next call.
    pub fn on_tool_result(&mut self, outcome: Result<String, String>)
        requires
            old(self).phase is AwaitingTool,
            old(self).call_index < usize::MAX,
        ensures
            final(self).phase is Dispatching,
            final(self).verbose_tool_calls == old(self).verbose_tool_calls,
            final(self).tool_confirmation == old(self).tool_confirmation,
            final(self).msg_index == old(self).msg_index,
            final(self).inflight == old(self).inflight,
            final(self).acc_content == old(self).acc_content,
            final(self).acc_thinking == old(self).acc_thinking,
            final(self).call_index as int == old(self).call_index + 1,
            !final(self).rendered,
            !final(self).confirmed,
            match outcome {
                Ok(content) => {
                    &&& final(self).tool_messages@.len() == old(self).tool_messages@.len() + 1
                    &&& (forall|k: int|
                        0 <= k < old(self).tool_messages@.len() ==> final(self).tool_messages@[k]
                            == old(self).tool_messages@[k])
                    &&& final(self).tool_messages@.last().role is Tool
                    &&& final(self).tool_messages@.last().content == content
                    &&& final(self).tool_messages@.last().tool_calls@.len() == 0
                },
                Err(_) => final(self).tool_messages@ == old(self).tool_messages@,
            },
    {
        match outcome {
            Ok(content) => {
                self.tool_messages.push(Message::tool(content));
            },
            Err(_) => {},
        }
        self.call_index = self.call_index + 1;
        self.rendered = false;
        self.confirmed = false;
        self.phase = RoundPhase::Dispatching;
    }

    /// Takes the stream's end: the round is over and the output channel
    /// closes.
    pub fn on_stream_end(&mut self)
        requires
            old(self).phase is Streaming,
        ensures
            final(self).phase is Done,
            final(self).verbose_tool_calls == old(self).verbose_tool_calls,
            final(self).tool_confirmation == old(self).tool_confirmation,
    {
        self.phase = RoundPhase::Done;
    }

    /// Takes a failure to open the stream or a follow-up stream: the round
    /// aborts and the output channel closes, with no error value carried —
    /// the stream-level failure is only logged.
    pub fn on_stream_error(&mut self)
        ensures
            final(self).phase is Done,
    {
        self.phase = RoundPhase::Done;
    }
}

/// The orchestrator's durable half: the shared conversation history, the
/// backend address, and whether the configured system prompt is substituted
/// into history (the planner suspends that while it runs).
#[derive(Debug)]
pub struct OllamaChat {
    pub history: ChatHistory,
    pub use_system_prompt: bool,
    pub host: String,
    pub port: u16,
}

impl OllamaChat {
    /// An orchestrator talking to the given backend address, given as
    /// `host` or `host:port`; without a port, or with one that is not a
    /// number, the backend's usual port is taken. The conversation starts
    /// empty.
    pub fn new(ollama_host: Option<String>) -> (r: OllamaChat)
        ensures
            r.history.messages@.len() == 0,
            r.use_system_prompt,
            match ollama_host {
                Some(h) => match spec_split_once(h@, ':') {
                    Some(p) => {
                        &&& r.host@ == p.0
                        &&& match spec_parse_u16(p.1) {
                            Some(port) => r.port == port,
                            None => r.port == 11434,
                        }
                    },
                    None => r.host@ == h@ && r.port == 11434,
                },
                None => r.host@ == "http://127.0.0.1"@ && r.port == 11434,
            },
    {
        let (host, port) = match ollama_host {
            Some(h) => match split_once_char(h.as_str(), ':') {
                Some((before, after)) => {
                    let port = match parse_u16(after.as_str()) {
                        Some(p) => p,
                        None => 11434,
                    };
                    (before, port)
                },
                None => (h, 11434),
            },
            None => (String::from_str("http://127.0.0.1"), 11434),
        };
        OllamaChat { history: ChatHistory::new(), use_system_prompt: true, host, port }
    }

    /// Empties the conversation; the user's explicit clear command is the
    /// only caller.
    pub fn clear(&mut self)
        ensures
            final(self).history.messages@.len() == 0,
            final(self).use_system_prompt == old(self).use_system_prompt,
            final(self).host == old(self).host,
            final(self).port == old(self).port,
    {
        self.history.clear_messages();
    }

    /// A view of the conversation recorded so far.
    pub fn get_history(&self) -> (r: &Vec<Message>)
        ensures
            r@ == self.history.messages@,
    {
        self.history.get_history()
    }

    /// Starts one round: substitutes the configured system prompt as
    /// history's first entry (inserting it, or overwriting a system turn
    /// already there) unless substitution is suspended or the prompt is
    /// empty; appends the caller's new messages; and builds the request —
    /// sampling options always, tool schemas and thinking only when the
    /// model declared the capability. The round and the request drive the
    /// stream the surrounding loop opens against the history.
    pub fn chat(
        &mut self,
        settings: &SettingsManager,
        caps: ModelCaps,
        enabled_tools: Vec<ToolInfo>,
        new_messages: Vec<Message>,
    ) -> (r: (ChatRound, ChatRequest))
        ensures
            final(self).use_system_prompt == old(self).use_system_prompt,
            final(self).host == old(self).host,
            final(self).port == old(self).port,
            ({
                let prompt = settings.model_system_prompt@;
                let h0 = old(self).history.messages@;
                let h1 = final(self).history.messages@;
                if old(self).use_system_prompt && prompt.len() > 0 {
                    if h0.len() == 0 || !(h0[0].role is System) {
                        &&& h1.len() == 1 + h0.len() + new_messages@.len()
                        &&& h1[0].role is System
                        &&& h1[0].content@ == prompt
                        &&& h1[0].tool_calls@.len() == 0
                        &&& h1.subrange(1, 1 + h0.len() as int) == h0
                        &&& h1.skip(1 + h0.len() as int) == new_messages@
                    } else {
                        &&& h1.len() == h0.len() + new_messages@.len()
                        &&& h1[0].role is System
                        &&& h1[0].content@ == prompt
                        &&& h1[0].tool_calls@.len() == 0
                        &&& h1.subrange(1, h0.len() as int) == h0.subrange(1, h0.len() as int)
                        &&& h1.skip(h0.len() as int) == new_messages@
                    }
                } else {
                    h1 == h0 + new_messages@
                }
            }),
            r.0.phase is Streaming,
            r.0.verbose_tool_calls == settings.verbose_tool_calls,
            r.0.tool_confirmation == settings.tool_confirmation,
            r.0.acc_content@.len() == 0,
            r.0.acc_thinking is None,
            !r.0.inflight,
            r.0.tool_messages@.len() == 0,
            r.1.model_name@ == settings.model_name@,
            r.1.seed == settings.model_seed,
            r.1.temperature_hundredths == settings.model_temperature,
            r.1.think == caps.thinking,
            r.1.tools@ == if caps.tools {
                enabled_tools@
            } else {
                Seq::<ToolInfo>::empty()
            },
    {
        if self.use_system_prompt && self.model_system_prompt_set(settings) {
            let needs_insert = if self.history.len() == 0 {
                true
            } else {
                !matches!(self.history.messages[0].role, MessageRole::System)
            };
            let sys = Message::system(settings.model_system_prompt.clone());
            if needs_insert {
                self.history.messages.insert(0, sys);
            } else {
                self.history.messages[0] = sys;
            }
        }
        let ghost msgs_view = new_messages@;
        let ghost mid = self.history.messages@;
        let ghost h0 = old(self).history.messages@;
        self.history.append_all(new_messages);
        proof {
            let h1 = self.history.messages@;
            assert(h1 == mid + msgs_view);
            if old(self).use_system_prompt && settings.model_system_prompt@.len() > 0 {
                if h0.len() == 0 || !(h0[0].role is System) {
                    assert(h1.subrange(1, 1 + h0.len() as int) =~= h0);
                    assert(h1.skip(1 + h0.len() as int) =~= msgs_view);
                } else {
                    assert(h1.subrange(1, h0.len() as int) =~= h0.subrange(1, h0.len() as int));
                    assert(h1.skip(h0.len() as int) =~= msgs_view);
                }
            } else {
                assert(h1 =~= h0 + msgs_view);
            }
        }
        let round = ChatRound::new(settings.verbose_tool_calls, settings.tool_confirmation);
        let request = ChatRequest {
            model_name: settings.model_name.clone(),
            seed: settings.model_seed,
            temperature_hundredths: settings.model_temperature,
            tools: if caps.tools {
                enabled_tools
            } else {
                Vec::new()
            },
            think: caps.thinking,
        };
        (round, request)
    }

    fn model_system_prompt_set(&self, settings: &SettingsManager) -> (r: bool)
        ensures
            r == (settings.model_system_prompt@.len() > 0),
    {
        settings.model_system_prompt.as_str().unicode_len() > 0
    }
}

} // verus!
