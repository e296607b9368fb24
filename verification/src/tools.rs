use vstd::prelude::*;
use crate::errors::{AppError, ErrorKind};
use crate::json::JsonValue;
use crate::strutil::{spec_split_once, split_once_char, str_eq};

verus! {

/// The metadata identifying one callable tool: its globally unique name, an
/// optional description, and the JSON text of its input schema. The schema
/// is carried through to the backend untouched, so it is kept as the text
/// the provider sent.
#[derive(Debug)]
pub struct ToolInfo {
    pub name: String,
    pub description: Option<String>,
    pub input_schema: String,
}

impl ToolInfo {
    /// An equal duplicate of the descriptor.
    pub fn duplicate(&self) -> (r: ToolInfo)
        ensures
            r == *self,
    {
        ToolInfo {
            name: self.name.clone(),
            description: match &self.description {
                Some(d) => Some(d.clone()),
                None => None,
            },
            input_schema: self.input_schema.clone(),
        }
    }
}

/// One tool of a provider's cached catalog, together with its enabled flag.
/// Every tool starts out enabled.
#[derive(Debug)]
pub struct MCPTool {
    pub tool_info: ToolInfo,
    pub enabled: bool,
}

impl MCPTool {
    /// A fresh catalog entry for the given descriptor, enabled.
    pub fn new(tool_info: ToolInfo) -> (r: MCPTool)
        ensures
            r.tool_info == tool_info,
            r.enabled,
    {
        MCPTool { tool_info, enabled: true }
    }

    /// An equal duplicate of the catalog entry.
    pub fn duplicate(&self) -> (r: MCPTool)
        ensures
            r == *self,
    {
        MCPTool { tool_info: self.tool_info.duplicate(), enabled: self.enabled }
    }
}

/// How one tool provider is reached: a spawned child process spoken to over
/// its standard streams, a server-sent-event connection, or a streamable
/// HTTP session. Each variant carries a disabled flag; a disabled provider
/// is never connected.
#[derive(Debug)]
pub enum MCPServerConfig {
    Stdio {
        name: String,
        command: String,
        args: Option<Vec<String>>,
        env: Option<Vec<String>>,
        disabled: bool,
    },
    SSE { name: String, url: String, headers: Option<Vec<(String, String)>>, disabled: bool },
    StreamableHttp {
        name: String,
        url: String,
        headers: Option<Vec<(String, String)>>,
        disabled: bool,
    },
}

impl MCPServerConfig {
    /// Whether this provider is switched off by its configuration.
    pub open spec fn spec_disabled(&self) -> bool {
        match self {
            MCPServerConfig::Stdio { disabled, .. } => *disabled,
            MCPServerConfig::SSE { disabled, .. } => *disabled,
            MCPServerConfig::StreamableHttp { disabled, .. } => *disabled,
        }
    }

    /// Whether this provider is switched off by its configuration.
    pub fn is_disabled(&self) -> (r: bool)
        ensures
            r == self.spec_disabled(),
    {
        match self {
            MCPServerConfig::Stdio { disabled, .. } => *disabled,
            MCPServerConfig::SSE { disabled, .. } => *disabled,
            MCPServerConfig::StreamableHttp { disabled, .. } => *disabled,
        }
    }
}

/// Everything the transport layer needs to open one session: the prepared,
/// validated connection parameters, with environment entries already split
/// into key/value pairs.
#[derive(Debug)]
pub enum TransportPlan {
    Stdio { command: String, args: Vec<String>, env: Vec<(String, String)> },
    Sse { url: String, headers: Vec<(String, String)> },
    Http { url: String, headers: Vec<(String, String)> },
}

/// The views of a list of key/value string pairs.
pub open spec fn pairs_view(v: Seq<(String, String)>) -> Seq<(Seq<char>, Seq<char>)> {
    v.map_values(|p: (String, String)| (p.0@, p.1@))
}

/// The key/value pairs described by environment entries of the form
/// `KEY=VALUE`; an entry without `=` is dropped.
pub open spec fn spec_env_pairs(env: Seq<String>) -> Seq<(Seq<char>, Seq<char>)>
    decreases env.len(),
{
    if env.len() == 0 {
        Seq::empty()
    } else {
        let rest = spec_env_pairs(env.drop_last());
        match spec_split_once(env.last()@, '=') {
            Some(p) => rest.push(p),
            None => rest,
        }
    }
}

/// Splits environment entries of the form `KEY=VALUE` into pairs, dropping
/// entries without a `=`.
pub fn env_pairs(env: &Vec<String>) -> (r: Vec<(String, String)>)
    ensures
        pairs_view(r@) == spec_env_pairs(env@),
{
    let mut out: Vec<(String, String)> = Vec::new();
    let n = env.len();
    let mut i: usize = 0;
    while i < n
        invariant
            n == env@.len(),
            0 <= i <= n,
            pairs_view(out@) == spec_env_pairs(env@.subrange(0, i as int)),
        decreases n - i,
    {
        proof {
            assert(env@.subrange(0, i + 1).drop_last() =~= env@.subrange(0, i as int));
        }
        match split_once_char(env[i].as_str(), '=') {
            Some(p) => {
                out.push(p);
                proof {
                    assert(pairs_view(out@) =~= spec_env_pairs(env@.subrange(0, i + 1)));
                }
            },
            None => {
                proof {
                    assert(pairs_view(out@) =~= spec_env_pairs(env@.subrange(0, i + 1)));
                }
            },
        }
        i = i + 1;
    }
    proof {
        assert(env@.subrange(0, n as int) =~= env@);
    }
    out
}

/// An equal duplicate of a list of strings.
pub fn copy_strings(v: &Vec<String>) -> (r: Vec<String>)
    ensures
        r@ == v@,
{
    let mut out: Vec<String> = Vec::new();
    let n = v.len();
    let mut i: usize = 0;
    while i < n
        invariant
            n == v@.len(),
            0 <= i <= n,
            out@ == v@.subrange(0, i as int),
        decreases n - i,
    {
        out.push(v[i].clone());
        proof {
            assert(out@ =~= v@.subrange(0, i + 1));
        }
        i = i + 1;
    }
    proof {
        assert(out@ =~= v@);
    }
    out
}

/// An equal duplicate of a list of string pairs.
pub fn copy_pairs(v: &Vec<(String, String)>) -> (r: Vec<(String, String)>)
    ensures
        r@ == v@,
{
    let mut out: Vec<(String, String)> = Vec::new();
    let n = v.len();
    let mut i: usize = 0;
    while i < n
        invariant
            n == v@.len(),
            0 <= i <= n,
            out@ == v@.subrange(0, i as int),
        decreases n - i,
    {
        out.push((v[i].0.clone(), v[i].1.clone()));
        proof {
            assert(out@ =~= v@.subrange(0, i + 1));
        }
        i = i + 1;
    }
    proof {
        assert(out@ =~= v@);
    }
    out
}

/// What a successful connection handed back: the peer's capability
/// information and the full tool catalog it listed.
#[derive(Debug)]
pub struct InitSuccess {
    pub peer_info: String,
    pub tools: Vec<ToolInfo>,
}

/// One tool-hosting connection: its configuration, whether a live session
/// exists, the peer information fetched at connection time, and the cached
/// tool catalog. The session handle itself lives with the transport layer;
/// the registry only tracks its presence.
#[derive(Debug)]
pub struct MCPServer {
    pub config: MCPServerConfig,
    pub connected: bool,
    pub peer_info: Option<String>,
    pub tools: Vec<MCPTool>,
}

impl MCPServer {
    /// A provider that has not been initialized yet: no session, no peer
    /// information, an empty catalog.
    pub fn new(config: MCPServerConfig) -> (r: MCPServer)
        ensures
            r.config == config,
            !r.connected,
            r.peer_info is None,
            r.tools@.len() == 0,
    {
        MCPServer { config, connected: false, peer_info: None, tools: Vec::new() }
    }

    /// What initializing this provider requires of the transport layer:
    /// nothing when the provider is disabled, otherwise the connection
    /// parameters for its transport, taken from its configuration alone.
    pub fn plan_initialize(&self) -> (r: Option<TransportPlan>)
        ensures
            (r is None) == self.config.spec_disabled(),
            match r {
                None => true,
                Some(plan) => match self.config {
                    MCPServerConfig::Stdio { .. } => holds_stdio_plan(&self.config, &plan),
                    MCPServerConfig::SSE { .. } => holds_url_plan(&self.config, &plan),
                    MCPServerConfig::StreamableHttp { .. } => holds_url_plan(&self.config, &plan),
                },
            },
    {
        if self.config.is_disabled() {
            return None;
        }
        match &self.config {
            MCPServerConfig::Stdio { command, args, env, .. } => {
                let plan_args = match args {
                    Some(a) => copy_strings(a),
                    None => Vec::new(),
                };
                let plan_env = match env {
                    Some(e) => env_pairs(e),
                    None => Vec::new(),
                };
                proof {
                    assert(spec_env_pairs(Seq::<String>::empty()) =~= Seq::<(
                        Seq<char>,
                        Seq<char>,
                    )>::empty());
                    assert(pairs_view(Seq::<(String, String)>::empty()) =~= Seq::<(
                        Seq<char>,
                        Seq<char>,
                    )>::empty());
                }
                Some(TransportPlan::Stdio { command: command.clone(), args: plan_args, env: plan_env })
            },
            MCPServerConfig::SSE { url, headers, .. } => {
                let plan_headers = match headers {
                    Some(h) => copy_pairs(h),
                    None => Vec::new(),
                };
                Some(TransportPlan::Sse { url: url.clone(), headers: plan_headers })
            },
            MCPServerConfig::StreamableHttp { url, headers, .. } => {
                let plan_headers = match headers {
                    Some(h) => copy_pairs(h),
                    None => Vec::new(),
                };
                Some(TransportPlan::Http { url: url.clone(), headers: plan_headers })
            },
        }
    }

    /// Records the outcome of initializing this provider. A disabled
    /// provider takes no outcome and succeeds without changing anything.
    /// A successful connection stores the peer information and caches the
    /// catalog, every tool enabled; a failed one leaves the provider
    /// uninitialized and hands the failure back.
    pub fn initialize(&mut self, outcome: Option<Result<InitSuccess, AppError>>) -> (r: Result<
        (),
        AppError,
    >)
        requires
            (outcome is None) == old(self).config.spec_disabled(),
        ensures
            old(self).config.spec_disabled() ==> *final(self) == *old(self) && r is Ok,
            !old(self).config.spec_disabled() ==> match outcome {
                Some(Ok(init)) => {
                    &&& r is Ok
                    &&& final(self).config == old(self).config
                    &&& final(self).connected
                    &&& final(self).peer_info == Some(init.peer_info)
                    &&& final(self).tools@.len() == init.tools@.len()
                    &&& forall|k: int|
                        0 <= k < init.tools@.len() ==> final(self).tools@[k] == (MCPTool {
                            tool_info: init.tools@[k],
                            enabled: true,
                        })
                },
                Some(Err(e)) => r == Err::<(), AppError>(e) && *final(self) == *old(self),
                None => false,
            },
    {
        match outcome {
            None => Ok(()),
            Some(Ok(init)) => {
                let mut tools: Vec<MCPTool> = Vec::new();
                let n = init.tools.len();
                let mut i: usize = 0;
                while i < n
                    invariant
                        n == init.tools@.len(),
                        0 <= i <= n,
                        tools@.len() == i,
                        forall|k: int|
                            0 <= k < i ==> tools@[k] == (MCPTool {
                                tool_info: init.tools@[k],
                                enabled: true,
                            }),
                    decreases n - i,
                {
                    tools.push(MCPTool::new(init.tools[i].duplicate()));
                    i = i + 1;
                }
                self.connected = true;
                self.peer_info = Some(init.peer_info);
                self.tools = tools;
                Ok(())
            },
            Some(Err(e)) => Err(e),
        }
    }
}

/// The concatenation of all providers' catalogs, in provider-then-catalog
/// order.
pub open spec fn spec_tools_of(services: Seq<MCPServer>) -> Seq<MCPTool>
    decreases services.len(),
{
    if services.len() == 0 {
        Seq::empty()
    } else {
        spec_tools_of(services.drop_last()) + services.last().tools@
    }
}

/// Whether some tool of a catalog has exactly the given name.
pub open spec fn has_named(tools: Seq<MCPTool>, name: Seq<char>) -> bool {
    exists|ti: int| 0 <= ti < tools.len() && tools[ti].tool_info.name@ == name
}

/// The predicate selecting the enabled tools of a catalog.
pub open spec fn enabled_pred() -> spec_fn(MCPTool) -> bool {
    |t: MCPTool| t.enabled
}

/// The enabled subset of all providers' catalogs, in provider-then-catalog
/// order.
pub open spec fn spec_enabled_tools(services: Seq<MCPServer>) -> Seq<MCPTool> {
    spec_tools_of(services).filter(enabled_pred())
}

/// The message reported when no tool of the given name is registered.
pub open spec fn spec_tool_not_found_msg(name: Seq<char>) -> Seq<char> {
    "Tool '"@ + name + "' not found."@
}

/// The message reported when a tool call's arguments are not a JSON object.
pub open spec fn spec_invalid_args_msg() -> Seq<char> {
    "Tool call arguments must be a JSON object."@
}

/// The message reported when the provider holding a tool has no live
/// session.
pub open spec fn spec_not_initialized_msg(name: Seq<char>) -> Seq<char> {
    "Provider for tool '"@ + name + "' is not initialized."@
}

fn tool_not_found_error(name: &str) -> (r: AppError)
    ensures
        r.kind == ErrorKind::Tool,
        r.message@ == spec_tool_not_found_msg(name@),
{
    let mut message = String::from_str("Tool '");
    message.append(name);
    message.append("' not found.");
    AppError::new(ErrorKind::Tool, message)
}

/// Whether a catalog holds exactly the given name somewhere.
fn has_tool_named(tools: &Vec<MCPTool>, name: &str) -> (r: bool)
    ensures
        r == has_named(tools@, name@),
{
    let n = tools.len();
    let mut i: usize = 0;
    while i < n
        invariant
            n == tools@.len(),
            0 <= i <= n,
            forall|j: int| 0 <= j < i ==> tools@[j].tool_info.name@ != name@,
        decreases n - i,
    {
        if str_eq(tools[i].tool_info.name.as_str(), name) {
            return true;
        }
        i = i + 1;
    }
    false
}

/// How two provider lists relate after one tool's enabled flag was set:
/// every other provider is untouched, and within the touched provider every
/// other tool is untouched; the tool at the given position keeps its
/// descriptor and takes the new flag.
pub open spec fn updated_at(
    a: Seq<MCPServer>,
    b: Seq<MCPServer>,
    si: int,
    ti: int,
    enabled: bool,
) -> bool {
    &&& 0 <= si < a.len()
    &&& 0 <= ti < a[si].tools@.len()
    &&& b.len() == a.len()
    &&& (forall|k: int| 0 <= k < a.len() && k != si ==> b[k] == a[k])
    &&& b[si].config == a[si].config
    &&& b[si].connected == a[si].connected
    &&& b[si].peer_info == a[si].peer_info
    &&& b[si].tools@.len() == a[si].tools@.len()
    &&& (forall|k: int|
        0 <= k < a[si].tools@.len() && k != ti ==> b[si].tools@[k] == a[si].tools@[k])
    &&& b[si].tools@[ti].tool_info == a[si].tools@[ti].tool_info
    &&& b[si].tools@[ti].enabled == enabled
}

/// Whether setting a tool's flag went to positions `si`, `ti`: that tool
/// has the name looked for, no earlier tool anywhere has it, and the two
/// provider lists agree everywhere but that tool's flag.
pub open spec fn set_status_witness(
    pre: Seq<MCPServer>,
    post: Seq<MCPServer>,
    name: Seq<char>,
    enabled: bool,
    si: int,
    ti: int,
) -> bool {
    &&& 0 <= si < pre.len()
    &&& 0 <= ti < pre[si].tools@.len()
    &&& pre[si].tools@[ti].tool_info.name@ == name
    &&& (forall|sj: int| 0 <= sj < si ==> !has_named(pre[sj].tools@, name))
    &&& (forall|tj: int| 0 <= tj < ti ==> pre[si].tools@[tj].tool_info.name@ != name)
    &&& updated_at(pre, post, si, ti, enabled)
}

/// Whether setting a tool's flag succeeded: the first tool with the given
/// name took the new flag, and nothing else changed.
pub open spec fn set_status_ok(
    pre: Seq<MCPServer>,
    post: Seq<MCPServer>,
    name: Seq<char>,
    enabled: bool,
) -> bool {
    exists|si: int, ti: int| #[trigger] set_status_witness(pre, post, name, enabled, si, ti)
}

/// The registry over all configured providers: it aggregates their catalogs,
/// routes calls by tool name, and tracks each tool's enabled flag.
#[derive(Debug)]
pub struct ToolManager {
    pub services: Vec<MCPServer>,
}

impl ToolManager {
    /// A registry over the given providers, in the given order.
    pub fn new(services: Vec<MCPServer>) -> (r: ToolManager)
        ensures
            r.services == services,
    {
        ToolManager { services }
    }

    /// Every provider's catalog, concatenated in provider-then-catalog
    /// order, enabled or not.
    pub fn get_tools(&self) -> (r: Vec<MCPTool>)
        ensures
            r@ == spec_tools_of(self.services@),
    {
        let mut out: Vec<MCPTool> = Vec::new();
        let ns = self.services.len();
        let mut si: usize = 0;
        while si < ns
            invariant
                ns == self.services@.len(),
                0 <= si <= ns,
                out@ == spec_tools_of(self.services@.subrange(0, si as int)),
            decreases ns - si,
        {
            let tools = &self.services[si].tools;
            let nt = tools.len();
            let mut ti: usize = 0;
            while ti < nt
                invariant
                    ns == self.services@.len(),
                    0 <= si < ns,
                    tools@ == self.services@[si as int].tools@,
                    nt == tools@.len(),
                    0 <= ti <= nt,
                    out@ == spec_tools_of(self.services@.subrange(0, si as int)) + tools@.subrange(
                        0,
                        ti as int,
                    ),
                decreases nt - ti,
            {
                out.push(tools[ti].duplicate());
                proof {
                    assert(out@ =~= spec_tools_of(self.services@.subrange(0, si as int))
                        + tools@.subrange(0, ti + 1));
                }
                ti = ti + 1;
            }
            proof {
                assert(self.services@.subrange(0, si + 1).drop_last() =~= self.services@.subrange(
                    0,
                    si as int,
                ));
                assert(tools@.subrange(0, nt as int) =~= tools@);
                assert(out@ =~= spec_tools_of(self.services@.subrange(0, si + 1)));
            }
            si = si + 1;
        }
        proof {
            assert(self.services@.subrange(0, ns as int) =~= self.services@);
        }
        out
    }

    /// The enabled subset of `get_tools`, in the same order.
    pub fn get_enabled_tools(&self) -> (r: Vec<MCPTool>)
        ensures
            r@ == spec_enabled_tools(self.services@),
    {
        let mut out: Vec<MCPTool> = Vec::new();
        let ns = self.services.len();
        let mut si: usize = 0;
        proof {
            reveal(Seq::filter);
            assert(spec_enabled_tools(self.services@.subrange(0, 0)) =~= Seq::<MCPTool>::empty());
        }
        while si < ns
            invariant
                ns == self.services@.len(),
                0 <= si <= ns,
                out@ == spec_enabled_tools(self.services@.subrange(0, si as int)),
            decreases ns - si,
        {
            let tools = &self.services[si].tools;
            let nt = tools.len();
            let mut ti: usize = 0;
            proof {
                assert(spec_tools_of(self.services@.subrange(0, si as int)) + tools@.subrange(0, 0)
                    =~= spec_tools_of(self.services@.subrange(0, si as int)));
            }
            while ti < nt
                invariant
                    ns == self.services@.len(),
                    0 <= si < ns,
                    tools@ == self.services@[si as int].tools@,
                    nt == tools@.len(),
                    0 <= ti <= nt,
                    out@ == (spec_tools_of(self.services@.subrange(0, si as int))
                        + tools@.subrange(0, ti as int)).filter(enabled_pred()),
                decreases nt - ti,
            {
                proof {
                    reveal(Seq::filter);
                    let prefix = spec_tools_of(self.services@.subrange(0, si as int));
                    let whole = prefix + tools@.subrange(0, ti + 1);
                    assert(whole.drop_last() =~= prefix + tools@.subrange(0, ti as int));
                    assert(whole.last() == tools@[ti as int]);
                }
                if tools[ti].enabled {
                    out.push(tools[ti].duplicate());
                }
                proof {
                    reveal(Seq::filter);
                    assert(out@ =~= (spec_tools_of(self.services@.subrange(0, si as int))
                        + tools@.subrange(0, ti + 1)).filter(enabled_pred()));
                }
                ti = ti + 1;
            }
            proof {
                assert(self.services@.subrange(0, si + 1).drop_last() =~= self.services@.subrange(
                    0,
                    si as int,
                ));
                assert(tools@.subrange(0, nt as int) =~= tools@);
                assert(spec_tools_of(self.services@.subrange(0, si + 1))
                    =~= spec_tools_of(self.services@.subrange(0, si as int)) + tools@);
            }
            si = si + 1;
        }
        proof {
            assert(self.services@.subrange(0, ns as int) =~= self.services@);
            reveal(Seq::filter);
        }
        out
    }

    /// Sets the enabled flag of the first tool with exactly the given name,
    /// scanning providers and their catalogs in order; fails, changing
    /// nothing, when no tool has the name.
    pub fn set_tool_status(&mut self, name: &str, enabled: bool) -> (r: Result<(), AppError>)
        ensures
            match r {
                Ok(()) => set_status_ok(old(self).services@, final(self).services@, name@, enabled),
                Err(e) => {
                    &&& *final(self) == *old(self)
                    &&& (forall|sj: int|
                        0 <= sj < old(self).services@.len() ==> !has_named(
                            old(self).services@[sj].tools@,
                            name@,
                        ))
                    &&& e.kind == ErrorKind::Tool
                    &&& e.message@ == spec_tool_not_found_msg(name@)
                },
            },
    {
        let ns = self.services.len();
        let mut si: usize = 0;
        while si < ns
            invariant
                ns == self.services@.len(),
                0 <= si <= ns,
                *self == *old(self),
                forall|sj: int| 0 <= sj < si ==> !has_named(self.services@[sj].tools@, name@),
            decreases ns - si,
        {
            let nt = self.services[si].tools.len();
            let mut ti: usize = 0;
            while ti < nt
                invariant
                    ns == self.services@.len(),
                    0 <= si < ns,
                    nt == self.services@[si as int].tools@.len(),
                    0 <= ti <= nt,
                    *self == *old(self),
                    forall|sj: int| 0 <= sj < si ==> !has_named(self.services@[sj].tools@, name@),
                    forall|tj: int|
                        0 <= tj < ti ==> self.services@[si as int].tools@[tj].tool_info.name@
                            != name@,
                decreases nt - ti,
            {
                if str_eq(self.services[si].tools[ti].tool_info.name.as_str(), name) {
                    self.services[si].tools[ti].enabled = enabled;
                    proof {
                        assert(updated_at(
                            old(self).services@,
                            self.services@,
                            si as int,
                            ti as int,
                            enabled,
                        ));
                        assert(set_status_witness(
                            old(self).services@,
                            self.services@,
                            name@,
                            enabled,
                            si as int,
                            ti as int,
                        ));
                    }
                    return Ok(());
                }
                ti = ti + 1;
            }
            si = si + 1;
        }
        Err(tool_not_found_error(name))
    }

    /// Resolves a tool call: rejects non-object argument payloads before
    /// any dispatch, then finds the first provider whose catalog holds the
    /// name. On success it hands back that provider's index, for the
    /// transport layer to forward the call to; it never touches the
    /// conversation history. The call fails with "not found" when no
    /// catalog holds the name, and with "not initialized" when the first
    /// provider holding it has no live session.
    pub fn call_tool(&self, name: &str, arguments: &JsonValue) -> (r: Result<usize, AppError>)
        ensures
            match r {
                Ok(si) => {
                    &&& arguments is Obj
                    &&& 0 <= (si as int) < self.services@.len()
                    &&& self.services@[si as int].connected
                    &&& has_named(self.services@[si as int].tools@, name@)
                    &&& (forall|sj: int|
                        0 <= sj < si ==> !has_named(self.services@[sj].tools@, name@))
                },
                Err(e) => {
                    &&& e.kind == ErrorKind::Tool
                    &&& !(arguments is Obj) ==> e.message@ == spec_invalid_args_msg()
                    &&& (arguments is Obj) ==> {
                        if exists|sj: int|
                            0 <= sj < self.services@.len() && has_named(
                                #[trigger] self.services@[sj].tools@,
                                name@,
                            ) {
                            exists|si: int|
                                {
                                    &&& 0 <= si < self.services@.len()
                                    &&& #[trigger] has_named(self.services@[si].tools@, name@)
                                    &&& !self.services@[si].connected
                                    &&& (forall|sj: int|
                                        0 <= sj < si ==> !has_named(
                                            self.services@[sj].tools@,
                                            name@,
                                        ))
                                    &&& e.message@ == spec_not_initialized_msg(name@)
                                }
                        } else {
                            e.message@ == spec_tool_not_found_msg(name@)
                        }
                    }
                },
            },
    {
        if !arguments.is_object() {
            return Err(
                AppError::new(
                    ErrorKind::Tool,
                    String::from_str("Tool call arguments must be a JSON object."),
                ),
            );
        }
        let ns = self.services.len();
        let mut si: usize = 0;
        while si < ns
            invariant
                ns == self.services@.len(),
                0 <= si <= ns,
                arguments is Obj,
                forall|sj: int| 0 <= sj < si ==> !has_named(self.services@[sj].tools@, name@),
            decreases ns - si,
        {
            if has_tool_named(&self.services[si].tools, name) {
                if self.services[si].connected {
                    return Ok(si);
                }
                let mut message = String::from_str("Provider for tool '");
                message.append(name);
                message.append("' is not initialized.");
                return Err(AppError::new(ErrorKind::Tool, message));
            }
            si = si + 1;
        }
        Err(tool_not_found_error(name))
    }
}

/// The predicate selecting the providers that are not disabled.
pub open spec fn enabled_provider_pred() -> spec_fn(MCPServer) -> bool {
    |s: MCPServer| !s.config.spec_disabled()
}

/// The registry invariant behind the catalog: a disabled provider is never
/// connected, so its catalog stays empty. Construction establishes it and
/// every registry operation preserves it.
pub open spec fn disabled_have_no_tools(services: Seq<MCPServer>) -> bool {
    forall|k: int|
        0 <= k < services.len() && (#[trigger] services[k]).config.spec_disabled()
            ==> services[k].tools@.len() == 0
}

/// `get_enabled_tools` is stable and idempotent: without intervening
/// mutation, any two reads of the enabled catalog from one registry state
/// are equal.
pub proof fn lemma_enabled_tools_stable(m: ToolManager, r1: Seq<MCPTool>, r2: Seq<MCPTool>)
    requires
        r1 == spec_enabled_tools(m.services@),
        r2 == spec_enabled_tools(m.services@),
    ensures
        r1 == r2,
{
}

/// A provider with `disabled = true` never appears in `get_tools`: since a
/// disabled provider's catalog is empty, the aggregated catalog is exactly
/// the catalog of the providers that are not disabled. (That a disabled
/// provider's `initialize` is a no-op success is that method's contract.)
pub proof fn lemma_disabled_provider_invisible(services: Seq<MCPServer>)
    requires
        disabled_have_no_tools(services),
    ensures
        spec_tools_of(services) == spec_tools_of(services.filter(enabled_provider_pred())),
    decreases services.len(),
{
    reveal(Seq::filter);
    if services.len() > 0 {
        lemma_disabled_provider_invisible(services.drop_last());
        let last = services.last();
        let fdl = services.drop_last().filter(enabled_provider_pred());
        if !last.config.spec_disabled() {
            assert(services.filter(enabled_provider_pred()) == fdl.push(last));
            assert(fdl.push(last).drop_last() =~= fdl);
            assert(spec_tools_of(fdl.push(last)) == spec_tools_of(fdl) + last.tools@);
        } else {
            assert(last.tools@ =~= Seq::<MCPTool>::empty());
            assert(spec_tools_of(services) =~= spec_tools_of(services.drop_last()));
        }
    } else {
        assert(services.filter(enabled_provider_pred()) =~= services);
    }
}

/// Whether exactly one tool across all catalogs carries the given name.
pub open spec fn unique_tool_name(services: Seq<MCPServer>, name: Seq<char>) -> bool {
    forall|k1: int, m1: int, k2: int, m2: int|
        {
            &&& 0 <= k1 < services.len() && 0 <= m1 < services[k1].tools@.len()
            &&& 0 <= k2 < services.len() && 0 <= m2 < services[k2].tools@.len()
            &&& (#[trigger] services[k1].tools@[m1]).tool_info.name@ == name
            &&& (#[trigger] services[k2].tools@[m2]).tool_info.name@ == name
        } ==> k1 == k2 && m1 == m2
}

/// Every aggregated tool comes from some provider's catalog.
proof fn lemma_tools_of_membership(services: Seq<MCPServer>, i: int)
    requires
        0 <= i < spec_tools_of(services).len(),
    ensures
        exists|k: int, m: int|
            0 <= k < services.len() && 0 <= m < services[k].tools@.len() && #[trigger] (
            services[k].tools@[m]) == spec_tools_of(services)[i],
    decreases services.len(),
{
    let whole = spec_tools_of(services);
    let prefix = spec_tools_of(services.drop_last());
    if i < prefix.len() {
        lemma_tools_of_membership(services.drop_last(), i);
        let (k, m) = choose|k: int, m: int|
            0 <= k < services.drop_last().len() && 0 <= m
                < services.drop_last()[k].tools@.len() && #[trigger] (
            services.drop_last()[k].tools@[m]) == prefix[i];
        assert(services[k].tools@[m] == whole[i]);
    } else {
        let m = i - prefix.len();
        let k = services.len() - 1;
        assert(services[k].tools@[m] == whole[i]);
    }
}

/// Two provider lists whose catalogs agree element by element aggregate to
/// the same catalog.
proof fn lemma_tools_of_congruence(a: Seq<MCPServer>, b: Seq<MCPServer>)
    requires
        a.len() == b.len(),
        forall|k: int| 0 <= k < a.len() ==> (#[trigger] a[k]).tools@ == b[k].tools@,
    ensures
        spec_tools_of(a) == spec_tools_of(b),
    decreases a.len(),
{
    if a.len() > 0 {
        lemma_tools_of_congruence(a.drop_last(), b.drop_last());
        assert(a.drop_last().len() == b.drop_last().len());
        assert(spec_tools_of(a) == spec_tools_of(a.drop_last()) + a.last().tools@);
        assert(a[a.len() - 1].tools@ == b[b.len() - 1].tools@);
    }
}

/// Disabling a uniquely named tool removes it from the enabled catalog, and
/// re-enabling it restores the enabled catalog exactly, original ordering
/// included. `pre` is the registry before, `mid` after
/// `set_tool_status(name, false)`, `post` after `set_tool_status(name,
/// true)`; the tool is assumed enabled at the start, and its name unique.
pub proof fn lemma_toggle_restores(
    pre: Seq<MCPServer>,
    mid: Seq<MCPServer>,
    post: Seq<MCPServer>,
    name: Seq<char>,
)
    requires
        unique_tool_name(pre, name),
        set_status_ok(pre, mid, name, false),
        set_status_ok(mid, post, name, true),
        forall|k: int, m: int|
            0 <= k < pre.len() && 0 <= m < pre[k].tools@.len() && (#[trigger] pre[k].tools@[m])
                .tool_info.name@ == name ==> pre[k].tools@[m].enabled,
    ensures
        forall|i: int|
            0 <= i < spec_enabled_tools(mid).len() ==> (#[trigger] spec_enabled_tools(
                mid,
            )[i]).tool_info.name@ != name,
        spec_enabled_tools(post) == spec_enabled_tools(pre),
{
    let (si, ti) = choose|si: int, ti: int|
        #[trigger] set_status_witness(pre, mid, name, false, si, ti);
    let (si2, ti2) = choose|si2: int, ti2: int|
        #[trigger] set_status_witness(mid, post, name, true, si2, ti2);
    // The names are untouched by a flag update, so both steps hit the same
    // position.
    assert(mid[si2].tools@[ti2].tool_info == pre[si2].tools@[ti2].tool_info);
    assert(pre[si].tools@[ti].tool_info.name@ == name);
    assert(pre[si2].tools@[ti2].tool_info.name@ == name);
    assert(si2 == si && ti2 == ti);
    // Removal: every enabled tool of `mid` comes from some catalog
    // position; the only position named `name` is (si, ti), and it is
    // disabled there.
    assert forall|i: int| 0 <= i < spec_enabled_tools(mid).len() implies (
    #[trigger] spec_enabled_tools(mid)[i]).tool_info.name@ != name by {
        reveal(Seq::filter);
        let all = spec_tools_of(mid);
        let enabled = spec_enabled_tools(mid);
        all.lemma_filter_pred(enabled_pred(), i);
        assert(enabled[i].enabled);
        lemma_filter_subset_indices(all, enabled_pred(), i);
        let j = choose|j: int| 0 <= j < all.len() && all[j] == enabled[i];
        lemma_tools_of_membership(mid, j);
        let (k, m) = choose|k: int, m: int|
            0 <= k < mid.len() && 0 <= m < mid[k].tools@.len() && #[trigger] (mid[k].tools@[m])
                == all[j];
        if mid[k].tools@[m].tool_info.name@ == name {
            // The tool at (k, m) has the name; in `pre` it has it too.
            assert(pre[k].tools@[m].tool_info == mid[k].tools@[m].tool_info);
            assert(k == si && m == ti);
            assert(!mid[si].tools@[ti].enabled);
        }
    }
    // Restoration: `post` agrees with `pre` at every catalog position, so
    // the aggregates and their enabled subsets are equal.
    assert(pre[si].tools@[ti].enabled);
    assert forall|k: int| 0 <= k < pre.len() implies (#[trigger] post[k]).tools@ == pre[k].tools@
        by {
        if k != si {
            assert(post[k] == mid[k]);
            assert(mid[k] == pre[k]);
        } else {
            assert forall|m: int| 0 <= m < pre[k].tools@.len() implies post[k].tools@[m] == (
            #[trigger] pre[k].tools@[m]) by {
                if m != ti {
                    assert(post[k].tools@[m] == mid[k].tools@[m]);
                    assert(mid[k].tools@[m] == pre[k].tools@[m]);
                } else {
                    assert(post[k].tools@[m].tool_info == mid[k].tools@[m].tool_info);
                    assert(mid[k].tools@[m].tool_info == pre[k].tools@[m].tool_info);
                    assert(post[k].tools@[m].enabled == pre[k].tools@[m].enabled);
                }
            }
            assert(post[k].tools@ =~= pre[k].tools@);
        }
    }
    lemma_tools_of_congruence(post, pre);
}

/// A filtered element is an element of the original sequence.
proof fn lemma_filter_subset_indices(s: Seq<MCPTool>, pred: spec_fn(MCPTool) -> bool, i: int)
    requires
        0 <= i < s.filter(pred).len(),
    ensures
        exists|j: int| 0 <= j < s.len() && s[j] == s.filter(pred)[i],
    decreases s.len(),
{
    reveal(Seq::filter);
    if s.len() > 0 {
        let fdl = s.drop_last().filter(pred);
        if i < fdl.len() {
            lemma_filter_subset_indices(s.drop_last(), pred, i);
            let j = choose|j: int| 0 <= j < s.drop_last().len() && s.drop_last()[j] == fdl[i];
            assert(s[j] == s.filter(pred)[i]);
        } else {
            assert(s[s.len() - 1] == s.filter(pred)[i]);
        }
    }
}

/// Whether a transport plan matches a child-process configuration: the
/// command is the configured one, the arguments are the configured ones (or
/// none), and the environment pairs are the configured entries split at
/// their first `=`.
pub open spec fn holds_stdio_plan(config: &MCPServerConfig, plan: &TransportPlan) -> bool {
    match (config, plan) {
        (
            MCPServerConfig::Stdio { command, args, env, .. },
            TransportPlan::Stdio { command: pc, args: pa, env: pe },
        ) => {
            &&& pc@ == command@
            &&& pa@ == (match args {
                Some(a) => a@,
                None => Seq::<String>::empty(),
            })
            &&& pairs_view(pe@) == (match env {
                Some(e) => spec_env_pairs(e@),
                None => Seq::<(Seq<char>, Seq<char>)>::empty(),
            })
        },
        _ => false,
    }
}

/// Whether a transport plan matches a URL-based configuration: the URL is
/// the configured one, the headers are the configured pairs (or none), and
/// the plan uses the transport the configuration names.
pub open spec fn holds_url_plan(config: &MCPServerConfig, plan: &TransportPlan) -> bool {
    match (config, plan) {
        (
            MCPServerConfig::SSE { url, headers, .. },
            TransportPlan::Sse { url: pu, headers: ph },
        ) => {
            &&& pu@ == url@
            &&& ph@ == (match headers {
                Some(h) => h@,
                None => Seq::<(String, String)>::empty(),
            })
        },
        (
            MCPServerConfig::StreamableHttp { url, headers, .. },
            TransportPlan::Http { url: pu, headers: ph },
        ) => {
            &&& pu@ == url@
            &&& ph@ == (match headers {
                Some(h) => h@,
                None => Seq::<(String, String)>::empty(),
            })
        },
        _ => false,
    }
}

} // verus!
