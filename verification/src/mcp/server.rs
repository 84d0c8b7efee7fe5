//! Routing of MCP requests.
use vstd::prelude::*;

use crate::json::{
    json_encode_str, json_member_str, json_member_text, json_parse_error, spec_json_member_str,
    spec_json_member_text, spec_json_parse_error, spec_json_string, spec_trim, trim_text,
};
use crate::jsonrpc::{null_json, reply_error, reply_error_text, reply_result, reply_result_text};
use crate::mcp::daemon::{DaemonError, user_message_spec};
use crate::mcp::tools::{
    SESSION_RESOURCE_URI, is_tool_name, tool_description, tool_name_list, tool_schema, tool_specs,
};
use crate::text::{starts_with, str_eq};

verus! {

/// The MCP protocol version the adapter speaks.
pub const MCP_PROTOCOL: &'static str = "2024-11-05";

/// An error reply.
#[derive(Debug, Clone, PartialEq, Eq)]
pub struct ServerError {
    pub code: i64,
    pub message: String,
}

impl ServerError {
    pub fn invalid_params() -> (r: ServerError)
        ensures
            r.code == -32602,
            r.message@ == "invalid params"@,
    {
        proof {
            reveal_strlit("invalid params");
        }
        ServerError { code: -32602, message: String::from_str("invalid params") }
    }
}

/// A daemon failure seen through a resource read.
pub fn daemon_error_to_server(err: DaemonError) -> (r: ServerError)
    ensures
        r.code == -32000,
        err matches DaemonError::Rpc { message, .. } ==> r.message@ == message@,
        err is Timeout ==> r.message@ == "daemon read timed out"@,
{
    ServerError { code: -32000, message: err.user_message() }
}

/// What the adapter does with a request.
#[derive(Debug, Clone, Copy, PartialEq, Eq, Structural)]
pub enum McpRoute {
    /// A notification: no reply.
    NoReply,
    /// Reply with this error.
    Error(RouteError),
    Initialize,
    Ping,
    ToolsList,
    ToolsCall,
    ResourcesList,
    ResourcesRead,
}

/// Why a request is refused before any method runs.
#[derive(Debug, Clone, Copy, PartialEq, Eq, Structural)]
pub enum RouteError {
    /// The line is not JSON: `-32700`.
    ParseError,
    /// No method, or a version other than `2.0`: `-32600`.
    InvalidRequest,
    /// A tool or resource method before `initialize`: `-32002`.
    NotInitialized,
    /// Any other method: `-32601`.
    MethodNotFound,
}

impl RouteError {
    pub open spec fn code_spec(self) -> int {
        match self {
            RouteError::ParseError => -32700,
            RouteError::InvalidRequest => -32600,
            RouteError::NotInitialized => -32002,
            RouteError::MethodNotFound => -32601,
        }
    }

    pub open spec fn message_spec(self) -> Seq<char> {
        match self {
            RouteError::ParseError => "parse error"@,
            RouteError::InvalidRequest => "invalid request"@,
            RouteError::NotInitialized => "server not initialized"@,
            RouteError::MethodNotFound => "method not found"@,
        }
    }

    /// The error reply for this refusal.
    pub fn to_server_error(self) -> (r: ServerError)
        ensures
            r.code == self.code_spec(),
            r.message@ == self.message_spec(),
    {
        proof {
            reveal_strlit("parse error");
            reveal_strlit("invalid request");
            reveal_strlit("server not initialized");
            reveal_strlit("method not found");
        }
        match self {
            RouteError::ParseError => ServerError { code: -32700, message: String::from_str("parse error") },
            RouteError::InvalidRequest => ServerError {
                code: -32600,
                message: String::from_str("invalid request"),
            },
            RouteError::NotInitialized => ServerError {
                code: -32002,
                message: String::from_str("server not initialized"),
            },
            RouteError::MethodNotFound => ServerError {
                code: -32601,
                message: String::from_str("method not found"),
            },
        }
    }
}

/// The adapter's session: whether the client has initialised it.
#[derive(Default)]
pub struct McpServer {
    initialized: bool,
}

/// The route for a request, given whether the session is initialised: a request needs a method
/// and version `2.0` (`-32600`); notifications get no reply; `initialize` and `ping` always
/// work; the tool and resource methods need an initialised session (`-32002`); any other
/// method is `-32601`.
pub open spec fn route_spec(initialized: bool, method: Option<Seq<char>>, jsonrpc: Option<Seq<char>>) -> McpRoute {
    match method {
        None => McpRoute::Error(RouteError::InvalidRequest),
        Some(m) => if jsonrpc != Some("2.0"@) {
            McpRoute::Error(RouteError::InvalidRequest)
        } else if "notifications/"@.len() <= m.len() && m.subrange(0, "notifications/"@.len() as int)
            == "notifications/"@ {
            McpRoute::NoReply
        } else if m == "initialize"@ {
            McpRoute::Initialize
        } else if m == "ping"@ {
            McpRoute::Ping
        } else if m == "tools/list"@ || m == "tools/call"@ || m == "resources/list"@ || m == "resources/read"@ {
            if !initialized {
                McpRoute::Error(RouteError::NotInitialized)
            } else if m == "tools/list"@ {
                McpRoute::ToolsList
            } else if m == "tools/call"@ {
                McpRoute::ToolsCall
            } else if m == "resources/list"@ {
                McpRoute::ResourcesList
            } else {
                McpRoute::ResourcesRead
            }
        } else {
            McpRoute::Error(RouteError::MethodNotFound)
        },
    }
}

pub open spec fn opt_str_view(s: Option<&str>) -> Option<Seq<char>> {
    match s {
        Some(t) => Some(t@),
        None => None,
    }
}

/// What a `tools/call` does.
#[derive(Debug, Clone, PartialEq, Eq)]
pub enum ToolCallPlan {
    /// The call names no tool: `invalid params`.
    InvalidParams,
    /// Not a tool: a tool result marked as an error, with this text.
    Unknown(String),
    /// Forward to the daemon method of the same name; `null_params` for the tools that take
    /// none.
    Forward { null_params: bool },
}

impl McpServer {
    pub closed spec fn is_initialized(&self) -> bool {
        self.initialized
    }

    pub fn new() -> (r: McpServer)
        ensures
            !r.is_initialized(),
    {
        McpServer { initialized: false }
    }

    /// Fails with `-32002` until the client has initialised the session.
    pub fn require_initialized(&self) -> (r: Result<(), ServerError>)
        ensures
            self.is_initialized() ==> r is Ok,
            !self.is_initialized() ==> (r matches Err(e) && e.code == -32002 && e.message@
                == "server not initialized"@),
    {
        if self.initialized {
            Ok(())
        } else {
            proof {
                reveal_strlit("server not initialized");
            }
            Err(ServerError { code: -32002, message: String::from_str("server not initialized") })
        }
    }

    /// Routes a request by its method and version field; `initialize` initialises the session.
    pub fn route(&mut self, method: Option<&str>, jsonrpc: Option<&str>) -> (r: McpRoute)
        ensures
            r == route_spec(old(self).is_initialized(), opt_str_view(method), opt_str_view(jsonrpc)),
            final(self).is_initialized() == (old(self).is_initialized() || r == McpRoute::Initialize),
    {
        proof {
            reveal_strlit("2.0");
            reveal_strlit("notifications/");
            reveal_strlit("initialize");
            reveal_strlit("ping");
            reveal_strlit("tools/list");
            reveal_strlit("tools/call");
            reveal_strlit("resources/list");
            reveal_strlit("resources/read");
        }
        let m = match method {
            Some(m) => m,
            None => return McpRoute::Error(RouteError::InvalidRequest),
        };
        let version_ok = match jsonrpc {
            Some(v) => str_eq(v, "2.0"),
            None => false,
        };
        if !version_ok {
            return McpRoute::Error(RouteError::InvalidRequest);
        }
        if starts_with(m, "notifications/") {
            return McpRoute::NoReply;
        }
        if str_eq(m, "initialize") {
            self.initialized = true;
            return McpRoute::Initialize;
        }
        if str_eq(m, "ping") {
            return McpRoute::Ping;
        }
        let tools_list = str_eq(m, "tools/list");
        let tools_call = str_eq(m, "tools/call");
        let resources_list = str_eq(m, "resources/list");
        let resources_read = str_eq(m, "resources/read");
        if tools_list || tools_call || resources_list || resources_read {
            if !self.initialized {
                return McpRoute::Error(RouteError::NotInitialized);
            }
            if tools_list {
                return McpRoute::ToolsList;
            }
            if tools_call {
                return McpRoute::ToolsCall;
            }
            if resources_list {
                return McpRoute::ResourcesList;
            }
            return McpRoute::ResourcesRead;
        }
        McpRoute::Error(RouteError::MethodNotFound)
    }
}

/// What a `tools/call` for a tool name does: no name is invalid params; a name that is not an
/// offered tool (such as `gate_unlock`) gives an error result `unknown tool: NAME`; an offered
/// tool is forwarded to the daemon, with no arguments for `gate_status` and `gate_due`.
pub fn tool_call_plan(name: Option<&str>) -> (r: ToolCallPlan)
    ensures
        (match name {
            None => r == ToolCallPlan::InvalidParams,
            Some(n) => if tool_name_list().contains(n@) {
                r == (ToolCallPlan::Forward {
                    null_params: n@ == "gate_status"@ || n@ == "gate_due"@,
                })
            } else {
                r matches ToolCallPlan::Unknown(msg) && msg@ == "unknown tool: "@ + n@
            },
        }),
{
    let n = match name {
        Some(n) => n,
        None => return ToolCallPlan::InvalidParams,
    };
    if !is_tool_name(n) {
        let mut text = String::from_str("unknown tool: ");
        text.append(n);
        return ToolCallPlan::Unknown(text);
    }
    ToolCallPlan::Forward { null_params: str_eq(n, "gate_status") || str_eq(n, "gate_due") }
}

/// Checks the URI of a `resources/read`: it must name the session resource.
pub fn resource_read_check(uri: Option<&str>) -> (r: Result<(), ServerError>)
    ensures
        uri is None ==> (r matches Err(e) && e.code == -32602 && e.message@ == "invalid params"@),
        uri matches Some(u) && u@ != SESSION_RESOURCE_URI@ ==> (r matches Err(e) && e.code == -32602
            && e.message@ == "unknown resource"@),
        uri matches Some(u) && u@ == SESSION_RESOURCE_URI@ ==> r is Ok,
{
    let u = match uri {
        Some(u) => u,
        None => return Err(ServerError::invalid_params()),
    };
    if !str_eq(u, SESSION_RESOURCE_URI) {
        proof {
            reveal_strlit("unknown resource");
        }
        return Err(ServerError { code: -32602, message: String::from_str("unknown resource") });
    }
    Ok(())
}

/// An agent cannot call an unlock through the adapter: `tools/call` of `gate_unlock` is an
/// unknown tool.
pub proof fn law_unlock_tool_is_unknown()
    ensures
        !tool_name_list().contains("gate_unlock"@),
{
    crate::mcp::tools::law_tools_never_unlock();
}

/// Before `initialize`, no tool or resource method runs.
pub proof fn law_tools_need_initialize(method: Seq<char>)
    ensures
        !(route_spec(false, Some(method), Some("2.0"@)) is ToolsList || route_spec(false, Some(method), Some("2.0"@)) is ToolsCall
            || route_spec(false, Some(method), Some("2.0"@)) is ResourcesList || route_spec(false, Some(method), Some("2.0"@))
            is ResourcesRead),
{
}

// ---------------------------------------------------------------------------------------------
// Request and reply lines.

/// The text of an optional string.
pub open spec fn opt_string_view(s: Option<String>) -> Option<Seq<char>> {
    match s {
        Some(t) => Some(t@),
        None => None,
    }
}

/// A request line that parsed: its id (JSON text, `null` when absent), its route, and its
/// params (JSON text).
pub struct McpRequest {
    pub id: String,
    pub route: McpRoute,
    pub params: Option<String>,
}

/// The id of a request as JSON text: `null` when it has none.
pub open spec fn id_or_null(id: Option<Seq<char>>) -> Seq<char> {
    match id {
        Some(i) => i,
        None => null_json(),
    }
}

impl McpServer {
    /// Reads a request line: a blank line wants no reply; a line that is not JSON is a parse
    /// error under a `null` id; otherwise the request's id, its route (as `route` gives it for
    /// the `method` and `jsonrpc` members) and its params. `initialize` initialises the session.
    pub fn parse_mcp_line(&mut self, line: &str) -> (r: Option<McpRequest>)
        ensures
            ({
                let t = spec_trim(line@);
                if t.len() == 0 {
                    r is None && final(self).is_initialized() == old(self).is_initialized()
                } else if spec_json_parse_error(t) is Some {
                    r matches Some(q) && q.id@ == null_json() && q.route == McpRoute::Error(RouteError::ParseError)
                        && q.params is None && final(self).is_initialized() == old(self).is_initialized()
                } else {
                    r matches Some(q) && q.id@ == id_or_null(spec_json_member_text(t, "id"@)) && q.route
                        == route_spec(
                        old(self).is_initialized(),
                        spec_json_member_str(t, "method"@),
                        spec_json_member_str(t, "jsonrpc"@),
                    ) && opt_string_view(q.params) == spec_json_member_text(t, "params"@)
                        && final(self).is_initialized() == (old(self).is_initialized() || q.route
                        == McpRoute::Initialize)
                }
            }),
    {
        proof {
            reveal_strlit("null");
            reveal_strlit("id");
            reveal_strlit("method");
            reveal_strlit("jsonrpc");
            reveal_strlit("params");
        }
        assert("null"@ =~= null_json());
        let t = trim_text(line);
        if t.unicode_len() == 0 {
            return None;
        }
        if json_parse_error(t).is_some() {
            return Some(
                McpRequest {
                    id: String::from_str("null"),
                    route: McpRoute::Error(RouteError::ParseError),
                    params: None,
                },
            );
        }
        let id = match json_member_text(t, "id") {
            Some(i) => i,
            None => String::from_str("null"),
        };
        let method = json_member_str(t, "method");
        let jsonrpc = json_member_str(t, "jsonrpc");
        let route = match (&method, &jsonrpc) {
            (Some(m), Some(v)) => self.route(Some(m.as_str()), Some(v.as_str())),
            (Some(m), None) => self.route(Some(m.as_str()), None),
            (None, Some(v)) => self.route(None, Some(v.as_str())),
            (None, None) => self.route(None, None),
        };
        let params = json_member_text(t, "params");
        Some(McpRequest { id, route, params })
    }
}

/// What the adapter does with a request.
pub enum McpAction {
    /// A notification: nothing is written.
    NoReply,
    /// Write this reply line.
    Reply(String),
    /// Forward a tool call to the daemon method of the same name with these params (JSON
    /// text), then answer with `tool_reply`.
    CallTool { id: String, method: String, params: String },
    /// Read the session through the daemon's `gate_status`, then answer with `session_reply`.
    ReadSession { id: String },
}

/// The `initialize` result.
pub open spec fn initialize_text() -> Seq<char> {
    "{\"capabilities\":{\"resources\":{},\"tools\":{}},\"protocolVersion\":\"2024-11-05\",\"serverInfo\":{\"name\":\"recallgate-mcp\",\"version\":\"0.1.0\"}}"@
}

/// The `resources/list` result: the session resource.
pub open spec fn resources_list_text() -> Seq<char> {
    "{\"resources\":[{\"description\":\"Current gate phase and capability (same as gate_status).\",\"mimeType\":\"application/json\",\"name\":\"session\",\"uri\":\"recallgate://session\"}]}"@
}

/// One tool as `tools/list` describes it.
pub open spec fn tool_entry_text(i: int) -> Seq<char> {
    "{\"description\":"@ + spec_json_string(tool_description(i)) + ",\"inputSchema\":"@ + tool_schema(i)
        + ",\"name\":"@ + spec_json_string(tool_name_list()[i]) + "}"@
}

/// The `tools/list` result: the four tools in order.
pub open spec fn tools_list_text() -> Seq<char> {
    "{\"tools\":["@ + tool_entry_text(0) + ","@ + tool_entry_text(1) + ","@ + tool_entry_text(2) + ","@
        + tool_entry_text(3) + "]}"@
}

/// A tool result whose text is `text`, marked as an error or not.
pub open spec fn tool_result_text(text: Seq<char>, is_error: bool) -> Seq<char> {
    "{\"content\":[{\"text\":"@ + spec_json_string(text) + ",\"type\":\"text\"}],\"isError\":"@ + (if is_error {
        "true"@
    } else {
        "false"@
    }) + "}"@
}

/// The `resources/read` result for the session payload `text`.
pub open spec fn session_contents_text(text: Seq<char>) -> Seq<char> {
    "{\"contents\":[{\"mimeType\":\"application/json\",\"text\":"@ + spec_json_string(text)
        + ",\"uri\":\"recallgate://session\"}]}"@
}

/// The member `key` of the params, when it is a string.
pub open spec fn params_str(params: Option<Seq<char>>, key: Seq<char>) -> Option<Seq<char>> {
    match params {
        Some(p) => spec_json_member_str(p, key),
        None => None,
    }
}

/// The params a tool call forwards: `null` for the tools that take none, else the call's
/// `arguments` (an empty object when absent).
pub open spec fn forwarded_params(params: Option<Seq<char>>, name: Seq<char>) -> Seq<char> {
    if name == "gate_status"@ || name == "gate_due"@ {
        null_json()
    } else {
        match params {
            Some(p) => match spec_json_member_text(p, "arguments"@) {
                Some(a) => a,
                None => "{}"@,
            },
            None => "{}"@,
        }
    }
}

/// What a tool call forwards to the daemon: for `gate_status` and `gate_due`, no params; for
/// every other tool (`gate_push_prompt` and `gate_lock` among them) the call's `arguments`
/// member exactly as the agent sent it, or an empty object when it sent none. Two such tools
/// forward the same params for the same call.
pub proof fn law_tool_arguments_are_forwarded(p: Seq<char>, name: Seq<char>, other: Seq<char>)
    ensures
        forwarded_params(Some(p), "gate_status"@) == seq!['n', 'u', 'l', 'l'],
        forwarded_params(Some(p), "gate_due"@) == seq!['n', 'u', 'l', 'l'],
        name != "gate_status"@ && name != "gate_due"@ ==> (spec_json_member_text(p, "arguments"@) matches Some(a)
            ==> forwarded_params(Some(p), name) == a),
        name != "gate_status"@ && name != "gate_due"@ ==> (spec_json_member_text(p, "arguments"@) is None
            ==> forwarded_params(Some(p), name) == seq!['{', '}']),
        name != "gate_status"@ && name != "gate_due"@ && other != "gate_status"@ && other != "gate_due"@
            ==> forwarded_params(Some(p), name) == forwarded_params(Some(p), other),
{
    reveal_strlit("{}");
    assert("{}"@ =~= seq!['{', '}']);
}

fn tool_entry(i: usize, name: &str, description: &str, schema: &str) -> (r: String)
    requires
        i < 4,
        name@ == tool_name_list()[i as int],
        description@ == tool_description(i as int),
        schema@ == tool_schema(i as int),
    ensures
        r@ == tool_entry_text(i as int),
{
    proof {
        reveal_strlit("{\"description\":");
        reveal_strlit(",\"inputSchema\":");
        reveal_strlit(",\"name\":");
        reveal_strlit("}");
    }
    let mut text = String::from_str("{\"description\":");
    let d = json_encode_str(description);
    text.append(d.as_str());
    text.append(",\"inputSchema\":");
    text.append(schema);
    text.append(",\"name\":");
    let n = json_encode_str(name);
    text.append(n.as_str());
    text.append("}");
    assert(text@ =~= tool_entry_text(i as int));
    text
}

/// The `tools/list` result text.
pub fn tools_list_json() -> (r: String)
    ensures
        r@ == tools_list_text(),
{
    proof {
        reveal_strlit("{\"tools\":[");
        reveal_strlit(",");
        reveal_strlit("]}");
    }
    let specs = tool_specs();
    let mut text = String::from_str("{\"tools\":[");
    let e0 = tool_entry(0, specs[0].name, specs[0].description, specs[0].input_schema);
    text.append(e0.as_str());
    text.append(",");
    let e1 = tool_entry(1, specs[1].name, specs[1].description, specs[1].input_schema);
    text.append(e1.as_str());
    text.append(",");
    let e2 = tool_entry(2, specs[2].name, specs[2].description, specs[2].input_schema);
    text.append(e2.as_str());
    text.append(",");
    let e3 = tool_entry(3, specs[3].name, specs[3].description, specs[3].input_schema);
    text.append(e3.as_str());
    text.append("]}");
    assert(text@ =~= tools_list_text());
    text
}

/// A tool result line's body.
pub fn tool_result_json(text: &str, is_error: bool) -> (r: String)
    ensures
        r@ == tool_result_text(text@, is_error),
{
    proof {
        reveal_strlit("{\"content\":[{\"text\":");
        reveal_strlit(",\"type\":\"text\"}],\"isError\":");
        reveal_strlit("true");
        reveal_strlit("false");
        reveal_strlit("}");
    }
    let mut out = String::from_str("{\"content\":[{\"text\":");
    let t = json_encode_str(text);
    out.append(t.as_str());
    out.append(",\"type\":\"text\"}],\"isError\":");
    out.append(if is_error { "true" } else { "false" });
    out.append("}");
    assert(out@ =~= tool_result_text(text@, is_error));
    out
}

fn session_contents_json(text: &str) -> (r: String)
    ensures
        r@ == session_contents_text(text@),
{
    proof {
        reveal_strlit("{\"contents\":[{\"mimeType\":\"application/json\",\"text\":");
        reveal_strlit(",\"uri\":\"recallgate://session\"}]}");
    }
    let mut out = String::from_str("{\"contents\":[{\"mimeType\":\"application/json\",\"text\":");
    let t = json_encode_str(text);
    out.append(t.as_str());
    out.append(",\"uri\":\"recallgate://session\"}]}");
    assert(out@ =~= session_contents_text(text@));
    out
}

fn params_member_str(params: &Option<String>, key: &str) -> (r: Option<String>)
    ensures
        opt_string_view(r) == params_str(opt_string_view(*params), key@),
{
    match params {
        Some(p) => json_member_str(p.as_str(), key),
        None => None,
    }
}

fn error_reply(id: &str, err: ServerError) -> (r: McpAction)
    ensures
        r matches McpAction::Reply(s) && s@ == reply_error_text(id@, err.code, err.message@),
{
    McpAction::Reply(reply_error(id, err.code, err.message.as_str()))
}

fn result_reply(id: &str, result: &str) -> (r: McpAction)
    ensures
        r matches McpAction::Reply(s) && s@ == reply_result_text(id@, result@),
{
    McpAction::Reply(reply_result(id, result))
}

/// What to do with a parsed request: notifications get nothing; refused requests their error
/// reply; `initialize`, `ping`, `tools/list` and `resources/list` their result; `tools/call`
/// an invalid-params error without a string `name`, an error result for a name that is not an
/// offered tool, and otherwise a call of that daemon method; `resources/read` an error
/// without a string `uri` or for another URI, and otherwise a read of the session.
pub fn respond(req: &McpRequest) -> (r: McpAction)
    ensures
        ({
            let id = req.id@;
            let params = opt_string_view(req.params);
            match req.route {
                McpRoute::NoReply => r is NoReply,
                McpRoute::Error(e) => r matches McpAction::Reply(s) && s@ == reply_error_text(
                    id,
                    e.code_spec() as i64,
                    e.message_spec(),
                ),
                McpRoute::Initialize => r matches McpAction::Reply(s) && s@ == reply_result_text(id, initialize_text()),
                McpRoute::Ping => r matches McpAction::Reply(s) && s@ == reply_result_text(id, "{}"@),
                McpRoute::ToolsList => r matches McpAction::Reply(s) && s@ == reply_result_text(id, tools_list_text()),
                McpRoute::ResourcesList => r matches McpAction::Reply(s) && s@ == reply_result_text(
                    id,
                    resources_list_text(),
                ),
                McpRoute::ToolsCall => match params_str(params, "name"@) {
                    None => r matches McpAction::Reply(s) && s@ == reply_error_text(id, -32602i64, "invalid params"@),
                    Some(n) => if tool_name_list().contains(n) {
                        r matches McpAction::CallTool { id: i, method: m, params: p } && i@ == id && m@ == n && p@
                            == forwarded_params(params, n)
                    } else {
                        r matches McpAction::Reply(s) && s@ == reply_result_text(
                            id,
                            tool_result_text("unknown tool: "@ + n, true),
                        )
                    },
                },
                McpRoute::ResourcesRead => match params_str(params, "uri"@) {
                    None => r matches McpAction::Reply(s) && s@ == reply_error_text(id, -32602i64, "invalid params"@),
                    Some(u) => if u != SESSION_RESOURCE_URI@ {
                        r matches McpAction::Reply(s) && s@ == reply_error_text(id, -32602i64, "unknown resource"@)
                    } else {
                        r matches McpAction::ReadSession { id: i } && i@ == id
                    },
                },
            }
        }),
{
    proof {
        reveal_strlit("{}");
        reveal_strlit("name");
        reveal_strlit("uri");
        reveal_strlit("arguments");
        reveal_strlit("null");
        reveal_strlit("gate_status");
        reveal_strlit("gate_due");
        reveal_strlit("{\"capabilities\":{\"resources\":{},\"tools\":{}},\"protocolVersion\":\"2024-11-05\",\"serverInfo\":{\"name\":\"recallgate-mcp\",\"version\":\"0.1.0\"}}");
        reveal_strlit("{\"resources\":[{\"description\":\"Current gate phase and capability (same as gate_status).\",\"mimeType\":\"application/json\",\"name\":\"session\",\"uri\":\"recallgate://session\"}]}");
    }
    let id = req.id.as_str();
    match req.route {
        McpRoute::NoReply => McpAction::NoReply,
        McpRoute::Error(e) => error_reply(id, e.to_server_error()),
        McpRoute::Initialize => result_reply(
            id,
            "{\"capabilities\":{\"resources\":{},\"tools\":{}},\"protocolVersion\":\"2024-11-05\",\"serverInfo\":{\"name\":\"recallgate-mcp\",\"version\":\"0.1.0\"}}",
        ),
        McpRoute::Ping => result_reply(id, "{}"),
        McpRoute::ToolsList => {
            let list = tools_list_json();
            result_reply(id, list.as_str())
        },
        McpRoute::ResourcesList => result_reply(
            id,
            "{\"resources\":[{\"description\":\"Current gate phase and capability (same as gate_status).\",\"mimeType\":\"application/json\",\"name\":\"session\",\"uri\":\"recallgate://session\"}]}",
        ),
        McpRoute::ToolsCall => {
            let name = params_member_str(&req.params, "name");
            let n = match &name {
                Some(n) => n.as_str(),
                None => return error_reply(id, ServerError::invalid_params()),
            };
            match tool_call_plan(Some(n)) {
                ToolCallPlan::InvalidParams => error_reply(id, ServerError::invalid_params()),
                ToolCallPlan::Unknown(text) => {
                    let body = tool_result_json(text.as_str(), true);
                    result_reply(id, body.as_str())
                },
                ToolCallPlan::Forward { null_params } => {
                    assert("null"@ =~= null_json());
                    let params = if null_params {
                        String::from_str("null")
                    } else {
                        match &req.params {
                            Some(p) => match json_member_text(p.as_str(), "arguments") {
                                Some(a) => a,
                                None => String::from_str("{}"),
                            },
                            None => String::from_str("{}"),
                        }
                    };
                    McpAction::CallTool { id: req.id.clone(), method: String::from_str(n), params }
                },
            }
        },
        McpRoute::ResourcesRead => {
            let uri = params_member_str(&req.params, "uri");
            let u = match &uri {
                Some(u) => Some(u.as_str()),
                None => None,
            };
            match resource_read_check(u) {
                Err(e) => error_reply(id, e),
                Ok(()) => McpAction::ReadSession { id: req.id.clone() },
            }
        },
    }
}

/// The reply line for a forwarded tool call: the daemon's result as the tool's text, or its
/// failure as an error result.
pub fn tool_reply(id: &str, reply: Result<String, DaemonError>) -> (r: String)
    ensures
        (match reply {
            Ok(text) => r@ == reply_result_text(id@, tool_result_text(text@, false)),
            Err(e) => r@ == reply_result_text(id@, tool_result_text(user_message_spec(e), true)),
        }),
{
    let body = match &reply {
        Ok(text) => tool_result_json(text.as_str(), false),
        Err(e) => {
            let msg = e.user_message();
            tool_result_json(msg.as_str(), true)
        },
    };
    reply_result(id, body.as_str())
}

/// The reply line for a session read: the daemon's `gate_status` result as the resource's
/// text, or its failure as a `-32000` error.
pub fn session_reply(id: &str, reply: Result<String, DaemonError>) -> (r: String)
    ensures
        (match reply {
            Ok(text) => r@ == reply_result_text(id@, session_contents_text(text@)),
            Err(e) => r@ == reply_error_text(id@, -32000i64, user_message_spec(e)),
        }),
{
    match &reply {
        Ok(text) => {
            let body = session_contents_json(text.as_str());
            reply_result(id, body.as_str())
        },
        Err(e) => {
            let message = e.user_message();
            reply_error(id, -32000, message.as_str())
        },
    }
}

} // verus!
