use vstd::prelude::*;
use crate::strutil::{
    ascii_lower_string, spec_ascii_lower_seq, spec_is_blank, spec_split_ws, split_ws, str_eq,
};

verus! {

/// One slash command of the interactive loop, parsed from the user's input.
/// A command that takes an optional argument carries `None` where the user
/// left it out; the caller substitutes its default (the configured model,
/// or an interactive picker).
#[derive(Debug)]
pub enum Command {
    Quit,
    Clear,
    History,
    ToolsShow,
    ToolsToggle(Option<String>),
    ToolsUsage,
    SettingsShow,
    SettingsEdit,
    SettingsSave,
    SettingsUsage,
    ModelInfo(Option<String>),
    ModelSelect(Option<String>),
    ModelLoad(Option<String>),
    ModelUnload(Option<String>),
    ModelPull(Option<String>),
    ModelUsage,
    Help,
    Unknown(String),
}

/// Whether an optional argument is exactly the third word, present if and
/// only if the user typed one.
pub open spec fn opt_arg_matches(parts: Seq<Seq<char>>, opt: Option<String>) -> bool {
    match opt {
        Some(x) => parts.len() >= 3 && x@ == parts[2],
        None => parts.len() < 3,
    }
}

/// Whether `c` is the command the words of the input line name. The command
/// word is matched without regard to ASCII case; subcommands and arguments
/// are taken as typed.
pub open spec fn command_matches(parts: Seq<Seq<char>>, c: Command) -> bool {
    parts.len() >= 1 && {
        let cmd = spec_ascii_lower_seq(parts[0]);
        let sub = if parts.len() >= 2 {
            parts[1]
        } else {
            Seq::<char>::empty()
        };
        if cmd == "/quit"@ {
            c is Quit
        } else if cmd == "/clear"@ {
            c is Clear
        } else if cmd == "/history"@ {
            c is History
        } else if cmd == "/tools"@ {
            if sub == "show"@ {
                c is ToolsShow
            } else if sub == "toggle"@ {
                c matches Command::ToolsToggle(opt) && opt_arg_matches(parts, opt)
            } else {
                c is ToolsUsage
            }
        } else if cmd == "/settings"@ {
            if sub == "show"@ {
                c is SettingsShow
            } else if sub == "edit"@ {
                c is SettingsEdit
            } else if sub == "save"@ {
                c is SettingsSave
            } else {
                c is SettingsUsage
            }
        } else if cmd == "/model"@ {
            if sub == "info"@ {
                c matches Command::ModelInfo(opt) && opt_arg_matches(parts, opt)
            } else if sub == "select"@ {
                c matches Command::ModelSelect(opt) && opt_arg_matches(parts, opt)
            } else if sub == "load"@ {
                c matches Command::ModelLoad(opt) && opt_arg_matches(parts, opt)
            } else if sub == "unload"@ {
                c matches Command::ModelUnload(opt) && opt_arg_matches(parts, opt)
            } else if sub == "pull"@ {
                c matches Command::ModelPull(opt) && opt_arg_matches(parts, opt)
            } else {
                c is ModelUsage
            }
        } else if cmd == "/help"@ {
            c is Help
        } else {
            c matches Command::Unknown(t) && t@ == parts[0]
        }
    }
}

/// A line that holds a non-blank character splits into at least one word.
proof fn lemma_split_ws_nonempty(s: Seq<char>)
    requires
        exists|i: int| 0 <= i < s.len() && !spec_is_blank(s[i]),
    ensures
        spec_split_ws(s).len() >= 1,
    decreases s.len(),
{
    let i = choose|i: int| 0 <= i < s.len() && !spec_is_blank(s[i]);
    if spec_is_blank(s.last()) {
        assert(s.drop_last()[i] == s[i]);
        lemma_split_ws_nonempty(s.drop_last());
    } else {
        if s.len() >= 2 && !spec_is_blank(s[s.len() - 2]) {
            assert(s.drop_last()[s.len() - 2] == s[s.len() - 2]);
            lemma_split_ws_nonempty(s.drop_last());
        }
    }
}

/// Parses one line of user input as a slash command; a line that does not
/// start with a slash is no command and is handed to the model instead.
pub fn parse_command(input: &str) -> (r: Option<Command>)
    ensures
        match r {
            Some(c) => input@.len() > 0 && input@[0] == '/' && command_matches(
                spec_split_ws(input@),
                c,
            ),
            None => input@.len() == 0 || input@[0] != '/',
        },
{
    let n = input.unicode_len();
    if n == 0 || input.get_char(0) != '/' {
        return None;
    }
    let words = split_ws(input);
    proof {
        lemma_split_ws_nonempty(input@);
        let parts = spec_split_ws(input@);
        assert(parts[0] == words@[0]@);
        if words@.len() >= 2 {
            assert(parts[1] == words@[1]@);
        }
        if words@.len() >= 3 {
            assert(parts[2] == words@[2]@);
        }
        reveal_strlit("");
        assert(""@ =~= Seq::<char>::empty());
    }
    let cmd = ascii_lower_string(words[0].as_str());
    let sub: &str = if words.len() >= 2 {
        words[1].as_str()
    } else {
        ""
    };
    proof {
        reveal_strlit("");
    }
    let arg: Option<String> = if words.len() >= 3 {
        Some(words[2].clone())
    } else {
        None
    };
    let c = if str_eq(cmd.as_str(), "/quit") {
        Command::Quit
    } else if str_eq(cmd.as_str(), "/clear") {
        Command::Clear
    } else if str_eq(cmd.as_str(), "/history") {
        Command::History
    } else if str_eq(cmd.as_str(), "/tools") {
        if str_eq(sub, "show") {
            Command::ToolsShow
        } else if str_eq(sub, "toggle") {
            Command::ToolsToggle(arg)
        } else {
            Command::ToolsUsage
        }
    } else if str_eq(cmd.as_str(), "/settings") {
        if str_eq(sub, "show") {
            Command::SettingsShow
        } else if str_eq(sub, "edit") {
            Command::SettingsEdit
        } else if str_eq(sub, "save") {
            Command::SettingsSave
        } else {
            Command::SettingsUsage
        }
    } else if str_eq(cmd.as_str(), "/model") {
        if str_eq(sub, "info") {
            Command::ModelInfo(arg)
        } else if str_eq(sub, "select") {
            Command::ModelSelect(arg)
        } else if str_eq(sub, "load") {
            Command::ModelLoad(arg)
        } else if str_eq(sub, "unload") {
            Command::ModelUnload(arg)
        } else if str_eq(sub, "pull") {
            Command::ModelPull(arg)
        } else {
            Command::ModelUsage
        }
    } else if str_eq(cmd.as_str(), "/help") {
        Command::Help
    } else {
        Command::Unknown(words[0].clone())
    };
    Some(c)
}

} // verus!
