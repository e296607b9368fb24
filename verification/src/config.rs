use vstd::prelude::*;
use crate::errors::{AppError, ErrorKind};
use crate::json::{obj_get, JsonValue};
use crate::strutil::{spec_rsplit_once, rsplit_once_char, str_eq, strings_view};
use crate::tools::{pairs_view, MCPServer, MCPServerConfig};

verus! {

/// The command line, already decoded by the surrounding binary: provider
/// registrations by kind, an optional configuration path, an optional model
/// and backend address, and an optional one-shot prompt.
#[derive(Debug)]
pub struct Args {
    pub stdio_server: Vec<String>,
    pub sse_server: Vec<String>,
    pub streamable_http_server: Vec<String>,
    pub json_mcp_config: Vec<String>,
    pub model: Option<String>,
    pub config: Option<String>,
    pub ollama_host: Option<String>,
    pub prompt: Option<String>,
}

/// A provider configuration reduced to its mathematical content, for
/// stating what the loaders build.
pub enum ProviderDesc {
    Stdio {
        name: Seq<char>,
        command: Seq<char>,
        args: Option<Seq<Seq<char>>>,
        env: Option<Seq<Seq<char>>>,
        disabled: bool,
    },
    Sse {
        name: Seq<char>,
        url: Seq<char>,
        headers: Option<Seq<(Seq<char>, Seq<char>)>>,
        disabled: bool,
    },
    Http {
        name: Seq<char>,
        url: Seq<char>,
        headers: Option<Seq<(Seq<char>, Seq<char>)>>,
        disabled: bool,
    },
}

/// The mathematical content of a provider configuration.
pub open spec fn desc_of_config(c: MCPServerConfig) -> ProviderDesc {
    match c {
        MCPServerConfig::Stdio { name, command, args, env, disabled } => ProviderDesc::Stdio {
            name: name@,
            command: command@,
            args: match args {
                Some(a) => Some(strings_view(a@)),
                None => None,
            },
            env: match env {
                Some(e) => Some(strings_view(e@)),
                None => None,
            },
            disabled,
        },
        MCPServerConfig::SSE { name, url, headers, disabled } => ProviderDesc::Sse {
            name: name@,
            url: url@,
            headers: match headers {
                Some(h) => Some(pairs_view(h@)),
                None => None,
            },
            disabled,
        },
        MCPServerConfig::StreamableHttp { name, url, headers, disabled } => ProviderDesc::Http {
            name: name@,
            url: url@,
            headers: match headers {
                Some(h) => Some(pairs_view(h@)),
                None => None,
            },
            disabled,
        },
    }
}

/// The mathematical content of a list of providers' configurations.
pub open spec fn descs_of(v: Seq<MCPServer>) -> Seq<ProviderDesc> {
    v.map_values(|s: MCPServer| desc_of_config(s.config))
}

/// Whether a provider has just been built and never initialized.
pub open spec fn fresh_server(s: MCPServer) -> bool {
    &&& !s.connected
    &&& s.peer_info is None
    &&& s.tools@.len() == 0
}

/// The string under `key` in a configuration entry, when the entry is an
/// object and the value a string.
pub open spec fn entry_str_field(cfg: JsonValue, key: Seq<char>) -> Option<Seq<char>> {
    if cfg is Obj {
        match obj_get(cfg->Obj_0@, key) {
            Some(JsonValue::Str(x)) => Some(x@),
            _ => None,
        }
    } else {
        None
    }
}

/// The string elements of a JSON array, in order; anything else in the
/// array is dropped.
pub open spec fn str_items(items: Seq<JsonValue>) -> Seq<Seq<char>>
    decreases items.len(),
{
    if items.len() == 0 {
        Seq::empty()
    } else {
        str_items(items.drop_last()) + (match items.last() {
            JsonValue::Str(x) => seq![x@],
            _ => Seq::<Seq<char>>::empty(),
        })
    }
}

/// The list under `key` in a configuration entry, when the entry is an
/// object and the value an array: its string elements, in order.
pub open spec fn entry_str_list(cfg: JsonValue, key: Seq<char>) -> Option<Seq<Seq<char>>> {
    if cfg is Obj {
        match obj_get(cfg->Obj_0@, key) {
            Some(JsonValue::Arr(items)) => Some(str_items(items@)),
            _ => None,
        }
    } else {
        None
    }
}

/// The bindings of a JSON object whose values are strings, in order;
/// anything else is dropped.
pub open spec fn str_pairs(fields: Seq<(String, JsonValue)>) -> Seq<(Seq<char>, Seq<char>)>
    decreases fields.len(),
{
    if fields.len() == 0 {
        Seq::empty()
    } else {
        str_pairs(fields.drop_last()) + (match fields.last().1 {
            JsonValue::Str(x) => seq![(fields.last().0@, x@)],
            _ => Seq::<(Seq<char>, Seq<char>)>::empty(),
        })
    }
}

/// The header map under `key` in a configuration entry, when the entry is
/// an object and the value an object: its string-valued bindings.
pub open spec fn entry_str_pairs(cfg: JsonValue, key: Seq<char>) -> Option<
    Seq<(Seq<char>, Seq<char>)>,
> {
    if cfg is Obj {
        match obj_get(cfg->Obj_0@, key) {
            Some(JsonValue::Obj(fields)) => Some(str_pairs(fields@)),
            _ => None,
        }
    } else {
        None
    }
}

/// The disabled flag of a configuration entry; anything but an explicit
/// boolean counts as enabled.
pub open spec fn entry_disabled(cfg: JsonValue) -> bool {
    if cfg is Obj {
        match obj_get(cfg->Obj_0@, "disabled"@) {
            Some(JsonValue::Bool(b)) => b,
            _ => false,
        }
    } else {
        false
    }
}

/// What one configuration entry describes, mirroring the loader's rules:
/// the transport is the entry's `type`, or is inferred (a command means a
/// child process, otherwise a URL means a streamable HTTP session); a child
/// process needs its command and the URL transports their URL; anything
/// else is invalid.
pub open spec fn spec_entry_desc(name: Seq<char>, cfg: JsonValue) -> Option<ProviderDesc> {
    let ty = entry_str_field(cfg, "type"@);
    let cmd = entry_str_field(cfg, "command"@);
    let url = entry_str_field(cfg, "url"@);
    let detected = match ty {
        Some(t) => Some(t),
        None => if cmd is Some {
            Some("stdio"@)
        } else if url is Some {
            Some("streamable_http"@)
        } else {
            None
        },
    };
    match detected {
        None => None,
        Some(t) => if t == "stdio"@ {
            match cmd {
                Some(c) => Some(
                    ProviderDesc::Stdio {
                        name,
                        command: c,
                        args: entry_str_list(cfg, "args"@),
                        env: entry_str_list(cfg, "env"@),
                        disabled: entry_disabled(cfg),
                    },
                ),
                None => None,
            }
        } else if t == "sse"@ {
            match url {
                Some(u) => Some(
                    ProviderDesc::Sse {
                        name,
                        url: u,
                        headers: entry_str_pairs(cfg, "headers"@),
                        disabled: entry_disabled(cfg),
                    },
                ),
                None => None,
            }
        } else if t == "streamable_http"@ {
            match url {
                Some(u) => Some(
                    ProviderDesc::Http {
                        name,
                        url: u,
                        headers: entry_str_pairs(cfg, "headers"@),
                        disabled: entry_disabled(cfg),
                    },
                ),
                None => None,
            }
        } else {
            None
        },
    }
}

/// The message with which an invalid configuration entry is rejected: it
/// names the offending server, or the unknown transport type, as the case
/// may be.
pub open spec fn spec_entry_error_msg(name: Seq<char>, cfg: JsonValue) -> Seq<char> {
    let ty = entry_str_field(cfg, "type"@);
    let cmd = entry_str_field(cfg, "command"@);
    let url = entry_str_field(cfg, "url"@);
    let detected = match ty {
        Some(t) => Some(t),
        None => if cmd is Some {
            Some("stdio"@)
        } else if url is Some {
            Some("streamable_http"@)
        } else {
            None
        },
    };
    match detected {
        None => "Invalid server configuration: missing required fields"@,
        Some(t) => if t == "stdio"@ {
            "Server '"@ + name + "' is missing required 'command' field"@
        } else if t == "sse"@ || t == "streamable_http"@ {
            "Server '"@ + name + "' is missing required 'url' field"@
        } else {
            "Unknown server type '"@ + t + "' for server '"@ + name + "'"@
        },
    }
}

fn get_str_field(cfg: &JsonValue, key: &str) -> (r: Option<String>)
    ensures
        match r {
            Some(x) => entry_str_field(*cfg, key@) == Some(x@),
            None => entry_str_field(*cfg, key@) is None,
        },
{
    match cfg.get(key) {
        Some(f) => match f.as_str() {
            Some(x) => Some(x.clone()),
            None => None,
        },
        None => None,
    }
}

fn get_str_list(cfg: &JsonValue, key: &str) -> (r: Option<Vec<String>>)
    ensures
        match r {
            Some(l) => entry_str_list(*cfg, key@) == Some(strings_view(l@)),
            None => entry_str_list(*cfg, key@) is None,
        },
{
    let items = match cfg.get(key) {
        Some(f) => match f.as_array() {
            Some(items) => items,
            None => {
                return None;
            },
        },
        None => {
            return None;
        },
    };
    let mut out: Vec<String> = Vec::new();
    let n = items.len();
    let mut i: usize = 0;
    while i < n
        invariant
            n == items@.len(),
            0 <= i <= n,
            strings_view(out@) == str_items(items@.subrange(0, i as int)),
        decreases n - i,
    {
        proof {
            assert(items@.subrange(0, i + 1).drop_last() =~= items@.subrange(0, i as int));
        }
        match &items[i] {
            JsonValue::Str(x) => {
                out.push(x.clone());
                proof {
                    assert(strings_view(out@) =~= str_items(items@.subrange(0, i + 1)));
                }
            },
            _ => {
                proof {
                    assert(strings_view(out@) =~= str_items(items@.subrange(0, i + 1)));
                }
            },
        }
        i = i + 1;
    }
    proof {
        assert(items@.subrange(0, n as int) =~= items@);
    }
    Some(out)
}

fn get_str_pairs(cfg: &JsonValue, key: &str) -> (r: Option<Vec<(String, String)>>)
    ensures
        match r {
            Some(l) => entry_str_pairs(*cfg, key@) == Some(pairs_view(l@)),
            None => entry_str_pairs(*cfg, key@) is None,
        },
{
    let fields = match cfg.get(key) {
        Some(f) => match f.as_object() {
            Some(fields) => fields,
            None => {
                return None;
            },
        },
        None => {
            return None;
        },
    };
    let mut out: Vec<(String, String)> = Vec::new();
    let n = fields.len();
    let mut i: usize = 0;
    while i < n
        invariant
            n == fields@.len(),
            0 <= i <= n,
            pairs_view(out@) == str_pairs(fields@.subrange(0, i as int)),
        decreases n - i,
    {
        proof {
            assert(fields@.subrange(0, i + 1).drop_last() =~= fields@.subrange(0, i as int));
        }
        match &fields[i].1 {
            JsonValue::Str(x) => {
                out.push((fields[i].0.clone(), x.clone()));
                proof {
                    assert(pairs_view(out@) =~= str_pairs(fields@.subrange(0, i + 1)));
                }
            },
            _ => {
                proof {
                    assert(pairs_view(out@) =~= str_pairs(fields@.subrange(0, i + 1)));
                }
            },
        }
        i = i + 1;
    }
    proof {
        assert(fields@.subrange(0, n as int) =~= fields@);
    }
    Some(out)
}

fn get_disabled(cfg: &JsonValue) -> (r: bool)
    ensures
        r == entry_disabled(*cfg),
{
    match cfg.get("disabled") {
        Some(f) => match f.as_bool() {
            Some(b) => b,
            None => false,
        },
        None => false,
    }
}

fn config_error(message: &str) -> (r: AppError)
    ensures
        r.kind == ErrorKind::Config,
        r.message@ == message@,
{
    AppError::new(ErrorKind::Config, String::from_str(message))
}

/// Builds one provider from its configuration entry, exactly when the
/// entry is valid; an invalid entry is rejected with the message naming
/// the offending server or type.
fn server_from_entry(name: &String, cfg: &JsonValue) -> (r: Result<MCPServer, AppError>)
    ensures
        match r {
            Ok(s) => spec_entry_desc(name@, *cfg) == Some(desc_of_config(s.config))
                && fresh_server(s),
            Err(e) => {
                &&& spec_entry_desc(name@, *cfg) is None
                &&& e.kind == ErrorKind::Config
                &&& e.message@ == spec_entry_error_msg(name@, *cfg)
            },
        },
{
    let ty = get_str_field(cfg, "type");
    let command = get_str_field(cfg, "command");
    let url = get_str_field(cfg, "url");
    let disabled = get_disabled(cfg);
    let detected: String = match ty {
        Some(t) => t,
        None => if command.is_some() {
            String::from_str("stdio")
        } else if url.is_some() {
            String::from_str("streamable_http")
        } else {
            return Err(config_error("Invalid server configuration: missing required fields"));
        },
    };
    if str_eq(detected.as_str(), "stdio") {
        let command = match command {
            Some(c) => c,
            None => {
                return Err(missing_field_error(name, "' is missing required 'command' field"));
            },
        };
        let args = get_str_list(cfg, "args");
        let env = get_str_list(cfg, "env");
        Ok(
            MCPServer::new(
                MCPServerConfig::Stdio { name: name.clone(), command, args, env, disabled },
            ),
        )
    } else if str_eq(detected.as_str(), "sse") {
        let url = match url {
            Some(u) => u,
            None => {
                return Err(missing_field_error(name, "' is missing required 'url' field"));
            },
        };
        let headers = get_str_pairs(cfg, "headers");
        Ok(MCPServer::new(MCPServerConfig::SSE { name: name.clone(), url, headers, disabled }))
    } else if str_eq(detected.as_str(), "streamable_http") {
        let url = match url {
            Some(u) => u,
            None => {
                return Err(missing_field_error(name, "' is missing required 'url' field"));
            },
        };
        let headers = get_str_pairs(cfg, "headers");
        Ok(
            MCPServer::new(
                MCPServerConfig::StreamableHttp { name: name.clone(), url, headers, disabled },
            ),
        )
    } else {
        let mut message = String::from_str("Unknown server type '");
        message.append(detected.as_str());
        message.append("' for server '");
        message.append(name.as_str());
        message.append("'");
        Err(AppError::new(ErrorKind::Config, message))
    }
}

fn missing_field_error(name: &String, tail: &str) -> (r: AppError)
    ensures
        r.kind == ErrorKind::Config,
        r.message@ == "Server '"@ + name@ + tail@,
{
    let mut message = String::from_str("Server '");
    message.append(name.as_str());
    message.append(tail);
    AppError::new(ErrorKind::Config, message)
}

/// Builds the providers a configuration document names under `mcpServers`,
/// in the document's order; the whole document is rejected when the key is
/// missing, when it is not an object, or at the first invalid entry.
pub fn load_mcp_servers_from_config(config: &JsonValue) -> (r: Result<Vec<MCPServer>, AppError>)
    ensures
        match r {
            Ok(servers) => {
                &&& config is Obj
                &&& match obj_get(config->Obj_0@, "mcpServers"@) {
                    Some(JsonValue::Obj(entries)) => {
                        &&& servers@.len() == entries@.len()
                        &&& (forall|i: int|
                            0 <= i < entries@.len() ==> spec_entry_desc(
                                entries@[i].0@,
                                #[trigger] entries@[i].1,
                            ) == Some(desc_of_config(servers@[i].config)))
                        &&& (forall|i: int|
                            0 <= i < servers@.len() ==> fresh_server(#[trigger] servers@[i]))
                    },
                    _ => false,
                }
            },
            Err(e) => {
                &&& e.kind == ErrorKind::Config
                &&& if !(config is Obj) || obj_get(config->Obj_0@, "mcpServers"@) is None {
                    e.message@ == "Missing 'mcpServers' key in configuration"@
                } else {
                    match obj_get(config->Obj_0@, "mcpServers"@) {
                        Some(JsonValue::Obj(entries)) => exists|i: int|
                            #![auto]
                            {
                                &&& 0 <= i < entries@.len()
                                &&& spec_entry_desc(entries@[i].0@, entries@[i].1) is None
                                &&& (forall|j: int|
                                    0 <= j < i ==> spec_entry_desc(
                                        entries@[j].0@,
                                        #[trigger] entries@[j].1,
                                    ) is Some)
                                &&& e.message@ == spec_entry_error_msg(
                                    entries@[i].0@,
                                    entries@[i].1,
                                )
                            },
                        Some(_) => e.message@ == "'mcpServers' should be a JSON object"@,
                        None => false,
                    }
                }
            },
        },
{
    let servers_value = match config.get("mcpServers") {
        Some(v) => v,
        None => {
            return Err(config_error("Missing 'mcpServers' key in configuration"));
        },
    };
    let entries = match servers_value.as_object() {
        Some(entries) => entries,
        None => {
            return Err(config_error("'mcpServers' should be a JSON object"));
        },
    };
    let mut servers: Vec<MCPServer> = Vec::new();
    let n = entries.len();
    let mut i: usize = 0;
    while i < n
        invariant
            config is Obj,
            match obj_get(config->Obj_0@, "mcpServers"@) {
                Some(JsonValue::Obj(e)) => e@ == entries@,
                _ => false,
            },
            n == entries@.len(),
            0 <= i <= n,
            servers@.len() == i,
            forall|k: int|
                0 <= k < i ==> spec_entry_desc(entries@[k].0@, #[trigger] entries@[k].1) == Some(
                    desc_of_config(servers@[k].config),
                ),
            forall|k: int| 0 <= k < i ==> fresh_server(#[trigger] servers@[k]),
        decreases n - i,
    {
        match server_from_entry(&entries[i].0, &entries[i].1) {
            Ok(s) => {
                servers.push(s);
            },
            Err(e) => {
                return Err(e);
            },
        }
        i = i + 1;
    }
    Ok(servers)
}

/// What one `--stdio-server` path registers, if anything: the path is split
/// at its last dot; a JavaScript file runs under node, a Python file under
/// python3, anything else is dropped. The provider is named after the
/// path's stem and receives the stem as the command's argument.
pub open spec fn spec_stdio_desc(path: Seq<char>) -> Option<ProviderDesc> {
    match spec_rsplit_once(path, '.') {
        Some(p) => if p.1 == "js"@ {
            Some(
                ProviderDesc::Stdio {
                    name: p.0,
                    command: "node"@,
                    args: Some(seq![p.0]),
                    env: None,
                    disabled: false,
                },
            )
        } else if p.1 == "py"@ {
            Some(
                ProviderDesc::Stdio {
                    name: p.0,
                    command: "python3"@,
                    args: Some(seq![p.0]),
                    env: None,
                    disabled: false,
                },
            )
        } else {
            None
        },
        None => None,
    }
}

/// The providers the `--stdio-server` flags register, in order, dropping
/// paths without a supported extension.
pub open spec fn spec_stdio_descs(paths: Seq<String>) -> Seq<ProviderDesc>
    decreases paths.len(),
{
    if paths.len() == 0 {
        Seq::empty()
    } else {
        spec_stdio_descs(paths.drop_last()) + (match spec_stdio_desc(paths.last()@) {
            Some(d) => seq![d],
            None => Seq::<ProviderDesc>::empty(),
        })
    }
}

/// The providers the URL flags register: one per URL, named after it, with
/// no headers and enabled.
pub open spec fn spec_url_descs(urls: Seq<String>, sse: bool) -> Seq<ProviderDesc> {
    urls.map_values(
        |u: String|
            if sse {
                ProviderDesc::Sse { name: u@, url: u@, headers: None, disabled: false }
            } else {
                ProviderDesc::Http { name: u@, url: u@, headers: None, disabled: false }
            },
    )
}

/// The configuration paths to read providers from: the ones named on the
/// command line, or the default path when none was named.
pub fn config_paths_from_args(args: &Args, default_path: String) -> (r: Vec<String>)
    ensures
        args.json_mcp_config@.len() > 0 ==> strings_view(r@) == strings_view(
            args.json_mcp_config@,
        ),
        args.json_mcp_config@.len() == 0 ==> strings_view(r@) == seq![default_path@],
{
    if args.json_mcp_config.len() > 0 {
        let r = crate::tools::copy_strings(&args.json_mcp_config);
        r
    } else {
        let mut r: Vec<String> = Vec::new();
        r.push(default_path);
        proof {
            assert(strings_view(r@) =~= seq![r@[0]@]);
        }
        r
    }
}

/// Builds the providers the command line registers directly: child-process
/// providers for each supported `--stdio-server` path, then one provider
/// per SSE URL, then one per streamable HTTP URL.
pub fn load_mcp_server_from_args(args: &Args) -> (r: Vec<MCPServer>)
    ensures
        descs_of(r@) == spec_stdio_descs(
            args.stdio_server@,
        ) + spec_url_descs(args.sse_server@, true) + spec_url_descs(
            args.streamable_http_server@,
            false,
        ),
        forall|i: int| 0 <= i < r@.len() ==> fresh_server(#[trigger] r@[i]),
{
    let mut services: Vec<MCPServer> = Vec::new();
    let n1 = args.stdio_server.len();
    let mut i: usize = 0;
    while i < n1
        invariant
            n1 == args.stdio_server@.len(),
            0 <= i <= n1,
            descs_of(services@) == spec_stdio_descs(
                args.stdio_server@.subrange(0, i as int),
            ),
            forall|k: int| 0 <= k < services@.len() ==> fresh_server(#[trigger] services@[k]),
        decreases n1 - i,
    {
        proof {
            assert(args.stdio_server@.subrange(0, i + 1).drop_last() =~= args.stdio_server@.subrange(
                0,
                i as int,
            ));
        }
        match rsplit_once_char(args.stdio_server[i].as_str(), '.') {
            Some((stem, ext)) => {
                let command: Option<String> = if str_eq(ext.as_str(), "js") {
                    Some(String::from_str("node"))
                } else if str_eq(ext.as_str(), "py") {
                    Some(String::from_str("python3"))
                } else {
                    None
                };
                match command {
                    Some(command) => {
                        let mut arg_list: Vec<String> = Vec::new();
                        arg_list.push(stem.clone());
                        proof {
                            assert(strings_view(arg_list@) =~= seq![stem@]);
                        }
                        services.push(
                            MCPServer::new(
                                MCPServerConfig::Stdio {
                                    name: stem,
                                    command,
                                    args: Some(arg_list),
                                    env: None,
                                    disabled: false,
                                },
                            ),
                        );
                        proof {
                            assert(descs_of(services@)
                                =~= spec_stdio_descs(args.stdio_server@.subrange(0, i + 1)));
                        }
                    },
                    None => {
                        proof {
                            assert(descs_of(services@)
                                =~= spec_stdio_descs(args.stdio_server@.subrange(0, i + 1)));
                        }
                    },
                }
            },
            None => {
                proof {
                    assert(descs_of(services@)
                        =~= spec_stdio_descs(args.stdio_server@.subrange(0, i + 1)));
                }
            },
        }
        i = i + 1;
    }
    proof {
        assert(args.stdio_server@.subrange(0, n1 as int) =~= args.stdio_server@);
    }
    let n2 = args.sse_server.len();
    let mut j: usize = 0;
    while j < n2
        invariant
            n2 == args.sse_server@.len(),
            0 <= j <= n2,
            descs_of(services@) == spec_stdio_descs(
                args.stdio_server@,
            ) + spec_url_descs(args.sse_server@.subrange(0, j as int), true),
            forall|k: int| 0 <= k < services@.len() ==> fresh_server(#[trigger] services@[k]),
        decreases n2 - j,
    {
        let url = args.sse_server[j].clone();
        let ghost pre = services@;
        services.push(
            MCPServer::new(
                MCPServerConfig::SSE { name: url.clone(), url, headers: None, disabled: false },
            ),
        );
        proof {
            assert(descs_of(services@) =~= descs_of(pre).push(
                desc_of_config(services@.last().config),
            ));
            assert(spec_url_descs(args.sse_server@.subrange(0, j + 1), true) =~= spec_url_descs(
                args.sse_server@.subrange(0, j as int),
                true,
            ).push(desc_of_config(services@.last().config)));
            assert(descs_of(services@)
                =~= spec_stdio_descs(args.stdio_server@) + spec_url_descs(
                args.sse_server@.subrange(0, j + 1),
                true,
            ));
        }
        j = j + 1;
    }
    proof {
        assert(args.sse_server@.subrange(0, n2 as int) =~= args.sse_server@);
    }
    let n3 = args.streamable_http_server.len();
    let mut k: usize = 0;
    while k < n3
        invariant
            n3 == args.streamable_http_server@.len(),
            0 <= k <= n3,
            descs_of(services@) == spec_stdio_descs(
                args.stdio_server@,
            ) + spec_url_descs(args.sse_server@, true) + spec_url_descs(
                args.streamable_http_server@.subrange(0, k as int),
                false,
            ),
            forall|m: int| 0 <= m < services@.len() ==> fresh_server(#[trigger] services@[m]),
        decreases n3 - k,
    {
        let url = args.streamable_http_server[k].clone();
        let ghost pre = services@;
        services.push(
            MCPServer::new(
                MCPServerConfig::StreamableHttp {
                    name: url.clone(),
                    url,
                    headers: None,
                    disabled: false,
                },
            ),
        );
        proof {
            assert(descs_of(services@) =~= descs_of(pre).push(
                desc_of_config(services@.last().config),
            ));
            assert(spec_url_descs(args.streamable_http_server@.subrange(0, k + 1), false)
                =~= spec_url_descs(args.streamable_http_server@.subrange(0, k as int), false).push(
                desc_of_config(services@.last().config),
            ));
            assert(descs_of(services@)
                =~= spec_stdio_descs(args.stdio_server@) + spec_url_descs(args.sse_server@, true)
                + spec_url_descs(args.streamable_http_server@.subrange(0, k + 1), false));
        }
        k = k + 1;
    }
    proof {
        assert(args.streamable_http_server@.subrange(0, n3 as int)
            =~= args.streamable_http_server@);
    }
    services
}

} // verus!
