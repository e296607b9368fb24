use vstd::prelude::*;
use crate::render::{
    colorize_text, spec_colorize, spec_render_box, AnsiColor, RoundedBox,
};
use crate::tools::MCPTool;

verus! {

/// Everything the surrounding loop renders implements this: a plain or a
/// boxed form of itself.
pub trait AppUIRenderable {
    fn render(&self, boxed: bool) -> String;
}

/// One catalog row: a colored check or cross with the tool's name, then its
/// description (or a stock line when the provider sent none).
pub open spec fn spec_tool_row(t: MCPTool) -> Seq<char> {
    let header = if t.enabled {
        spec_colorize("[\u{2714}] "@ + t.tool_info.name@, AnsiColor::BrightGreen)
    } else {
        spec_colorize("[\u{2718}] "@ + t.tool_info.name@, AnsiColor::BrightRed)
    };
    let desc = match t.tool_info.description {
        Some(d) => d@,
        None => "No description available"@,
    };
    header + " : "@ + desc + "\n"@
}

/// The catalog rows, in catalog order.
pub open spec fn spec_tool_rows(tools: Seq<MCPTool>) -> Seq<char>
    decreases tools.len(),
{
    if tools.len() == 0 {
        Seq::empty()
    } else {
        spec_tool_rows(tools.drop_last()) + spec_tool_row(tools.last())
    }
}

/// The text inside the available-tools box: the rows, or a stock line when
/// there are none.
pub open spec fn spec_tools_content(tools: Seq<MCPTool>) -> Seq<char> {
    if tools.len() == 0 {
        "No tools available"@
    } else {
        spec_tool_rows(tools)
    }
}

/// Renders the catalog as a box titled Available Tools, one row per tool,
/// enabled or not.
pub fn render_available_tools(tools: &Vec<MCPTool>) -> (r: String)
    ensures
        exists|tw: int|
            1 <= tw <= u16::MAX && r@ == spec_render_box(
                spec_tools_content(tools@),
                Some("Available Tools"@),
                Some(AnsiColor::BrightBlue),
                false,
                tw,
            ),
{
    let n = tools.len();
    let mut content = String::new();
    let mut i: usize = 0;
    while i < n
        invariant
            n == tools@.len(),
            0 <= i <= n,
            content@ == spec_tool_rows(tools@.subrange(0, i as int)),
        decreases n - i,
    {
        proof {
            assert(tools@.subrange(0, i + 1).drop_last() =~= tools@.subrange(0, i as int));
        }
        let t = &tools[i];
        let mut header_text = String::from_str(if t.enabled {
            "[\u{2714}] "
        } else {
            "[\u{2718}] "
        });
        header_text.append(t.tool_info.name.as_str());
        let header = if t.enabled {
            colorize_text(header_text.as_str(), AnsiColor::BrightGreen)
        } else {
            colorize_text(header_text.as_str(), AnsiColor::BrightRed)
        };
        content.append(header.as_str());
        content.append(" : ");
        match &t.tool_info.description {
            Some(d) => content.append(d.as_str()),
            None => content.append("No description available"),
        }
        content.append("\n");
        proof {
            assert(content@ =~= spec_tool_rows(tools@.subrange(0, i + 1)));
        }
        i = i + 1;
    }
    proof {
        assert(tools@.subrange(0, n as int) =~= tools@);
    }
    let final_content = if n == 0 {
        String::from_str("No tools available")
    } else {
        content
    };
    let boxed = RoundedBox::new(
        final_content.as_str(),
        Some("Available Tools"),
        Some(AnsiColor::BrightBlue),
        false,
    );
    proof {
        assert(boxed.text@ == spec_tools_content(tools@));
    }
    let r = boxed.render();
    proof {
        let tw = choose|tw: int|
            1 <= tw <= u16::MAX && r@ == spec_render_box(
                boxed.text@,
                crate::render::opt_str_view(boxed.title),
                boxed.color,
                boxed.center,
                tw,
            );
        assert(r@ == spec_render_box(
            spec_tools_content(tools@),
            Some("Available Tools"@),
            Some(AnsiColor::BrightBlue),
            false,
            tw,
        ));
    }
    r
}

/// The text inside a tool-call-request box: the call's name and its
/// arguments, already serialized for display.
pub open spec fn spec_call_request_content(name: Seq<char>, args: Seq<char>) -> Seq<char> {
    "Name: "@ + name + "\nArguments: \n"@ + args
}

/// Renders a pending tool call as a box titled Tool Call Request.
pub fn render_tool_call_request(name: &str, args_pretty: &str) -> (r: String)
    ensures
        exists|tw: int|
            1 <= tw <= u16::MAX && r@ == spec_render_box(
                spec_call_request_content(name@, args_pretty@),
                Some("Tool Call Request"@),
                Some(AnsiColor::BrightMagenta),
                false,
                tw,
            ),
{
    let mut content = String::from_str("Name: ");
    content.append(name);
    content.append("\nArguments: \n");
    content.append(args_pretty);
    proof {
        assert(content@ =~= spec_call_request_content(name@, args_pretty@));
    }
    let boxed = RoundedBox::new(
        content.as_str(),
        Some("Tool Call Request"),
        Some(AnsiColor::BrightMagenta),
        false,
    );
    let r = boxed.render();
    proof {
        let tw = choose|tw: int|
            1 <= tw <= u16::MAX && r@ == spec_render_box(
                boxed.text@,
                crate::render::opt_str_view(boxed.title),
                boxed.color,
                boxed.center,
                tw,
            );
        assert(r@ == spec_render_box(
            spec_call_request_content(name@, args_pretty@),
            Some("Tool Call Request"@),
            Some(AnsiColor::BrightMagenta),
            false,
            tw,
        ));
    }
    r
}

/// Renders a tool's result, already serialized for display, as a box titled
/// Tool Call Result.
pub fn render_tool_call_result(text: &str) -> (r: String)
    ensures
        exists|tw: int|
            1 <= tw <= u16::MAX && r@ == spec_render_box(
                text@,
                Some("Tool Call Result"@),
                Some(AnsiColor::BrightGreen),
                false,
                tw,
            ),
{
    let boxed = RoundedBox::new(
        text,
        Some("Tool Call Result"),
        Some(AnsiColor::BrightGreen),
        false,
    );
    boxed.render()
}

/// One help row: the command, colored, then what it does.
pub open spec fn spec_help_row(cmd: Seq<char>, what: Seq<char>) -> Seq<char> {
    spec_colorize(cmd, AnsiColor::BrightCyan) + " : "@ + what + "\n"@
}

/// The text inside the help box, one row per command.
pub open spec fn spec_help_content() -> Seq<char> {
    spec_help_row("/quit"@, "Exit the application"@) + spec_help_row(
        "/clear"@,
        "Clear the chat context"@,
    ) + spec_help_row("/history"@, "Show chat history"@) + spec_help_row(
        "/tools [show|toggle]"@,
        "List or Toggle available tools"@,
    ) + spec_help_row("/settings [show|edit|save]"@, "Show, Edit or Save current settings"@)
        + spec_help_row(
        "/model [info|select|load|unload|pull] <model>"@,
        "Manage model used by Ollama. <model> is optional"@,
    ) + spec_help_row("/help"@, "Show this help message"@)
}

fn push_help_row(out: &mut String, cmd: &str, what: &str)
    ensures
        final(out)@ == old(out)@ + spec_help_row(cmd@, what@),
{
    let colored = colorize_text(cmd, AnsiColor::BrightCyan);
    out.append(colored.as_str());
    out.append(" : ");
    out.append(what);
    out.append("\n");
    proof {
        assert(out@ =~= old(out)@ + spec_help_row(cmd@, what@));
    }
}

/// Renders the help box listing every command.
pub fn render_help() -> (r: String)
    ensures
        exists|tw: int|
            1 <= tw <= u16::MAX && r@ == spec_render_box(
                spec_help_content(),
                Some("Help"@),
                Some(AnsiColor::BrightCyan),
                false,
                tw,
            ),
{
    let mut content = String::new();
    push_help_row(&mut content, "/quit", "Exit the application");
    push_help_row(&mut content, "/clear", "Clear the chat context");
    push_help_row(&mut content, "/history", "Show chat history");
    push_help_row(&mut content, "/tools [show|toggle]", "List or Toggle available tools");
    push_help_row(
        &mut content,
        "/settings [show|edit|save]",
        "Show, Edit or Save current settings",
    );
    push_help_row(
        &mut content,
        "/model [info|select|load|unload|pull] <model>",
        "Manage model used by Ollama. <model> is optional",
    );
    push_help_row(&mut content, "/help", "Show this help message");
    proof {
        assert(content@ =~= spec_help_content());
    }
    let boxed = RoundedBox::new(content.as_str(), Some("Help"), Some(AnsiColor::BrightCyan), false);
    boxed.render()
}

/// What the interactive loop prints for one received chunk.
#[derive(Debug)]
pub struct DisplayPlan {
    pub open_tag: bool,
    pub thinking_text: Option<String>,
    pub close_tag: bool,
    pub content_text: Option<String>,
}

/// Tracks whether the display is inside a run of thinking text, so that the
/// opening tag is printed once when thinking starts and the closing tag
/// once when it ends; thinking is shown only when the setting asks for it,
/// but the tracking happens either way.
#[derive(Debug)]
pub struct ThinkingTracker {
    pub is_thinking: bool,
}

impl ThinkingTracker {
    /// A tracker outside any thinking run.
    pub fn new() -> (r: ThinkingTracker)
        ensures
            !r.is_thinking,
    {
        ThinkingTracker { is_thinking: false }
    }

    /// Decides what one chunk prints: a thinking chunk opens the run when
    /// needed and shows its text (when thinking is shown); a plain chunk
    /// closes an open run and shows its content.
    pub fn on_chunk(
        &mut self,
        content: &String,
        thinking: &Option<String>,
        show_thinking: bool,
    ) -> (r: DisplayPlan)
        ensures
            match thinking {
                Some(t) => {
                    &&& r.open_tag == (show_thinking && !old(self).is_thinking)
                    &&& (match r.thinking_text {
                        Some(x) => show_thinking && x@ == t@,
                        None => !show_thinking,
                    })
                    &&& !r.close_tag
                    &&& r.content_text is None
                    &&& final(self).is_thinking
                },
                None => {
                    &&& !r.open_tag
                    &&& r.thinking_text is None
                    &&& r.close_tag == (show_thinking && old(self).is_thinking)
                    &&& (r.content_text matches Some(x) && x@ == content@)
                    &&& !final(self).is_thinking
                },
            },
    {
        match thinking {
            Some(t) => {
                let open_tag = show_thinking && !self.is_thinking;
                self.is_thinking = true;
                DisplayPlan {
                    open_tag,
                    thinking_text: if show_thinking {
                        Some(t.clone())
                    } else {
                        None
                    },
                    close_tag: false,
                    content_text: None,
                }
            },
            None => {
                let close_tag = show_thinking && self.is_thinking;
                self.is_thinking = false;
                DisplayPlan {
                    open_tag: false,
                    thinking_text: None,
                    close_tag,
                    content_text: Some(content.clone()),
                }
            },
        }
    }
}

} // verus!
