//! A stateless JSON-RPC 2.0 router: `initialize`, `tools/list` and
//! `tools/call`, with uniform envelopes and error mapping.
use vstd::prelude::*;
use vstd::string::StringExecFns;
use crate::capabilities::ServerCapabilities;
use crate::json::{Json, lookup, lemma_only_keys, only_keys, object1, object2, object3, member, text_of, elements, same_text};
use crate::message::{Tool, ToolCall};

verus! {

/// The protocol version answered to `initialize`.
pub const PROTOCOL_VERSION: &'static str = "2024-11-05";
/// The name the server gives of itself.
pub const SERVER_NAME: &'static str = "mcp-server";
/// The version the server gives of itself.
pub const SERVER_VERSION: &'static str = "0.1.0";

pub const INVALID_REQUEST: i64 = -32600;
pub const METHOD_NOT_FOUND: i64 = -32601;
pub const INVALID_PARAMS: i64 = -32602;
pub const INTERNAL_ERROR: i64 = -32603;

/// A JSON-RPC request.
#[derive(Debug)]
pub struct JsonRpcRequest {
    pub jsonrpc: String,
    pub id: Option<u64>,
    pub method: String,
    pub params: Option<Json>,
}

/// The error object of a JSON-RPC response.
#[derive(Debug)]
pub struct ErrorData {
    pub code: i64,
    pub message: String,
}

/// A JSON-RPC response.
#[derive(Debug)]
pub struct JsonRpcResponse {
    pub jsonrpc: String,
    pub id: Option<u64>,
    pub result: Option<Json>,
    pub error: Option<ErrorData>,
}

/// An error at the RPC level.
#[derive(Debug)]
pub enum RouterError {
    MethodNotFound(String),
    InvalidParams(String),
    Internal(String),
    ToolNotFound(String),
}

impl RouterError {
    /// The JSON-RPC error code of this error.
    pub open spec fn code(&self) -> i64 {
        match self {
            RouterError::MethodNotFound(_) => METHOD_NOT_FOUND,
            RouterError::InvalidParams(_) => INVALID_PARAMS,
            RouterError::Internal(_) => INTERNAL_ERROR,
            RouterError::ToolNotFound(_) => INVALID_REQUEST,
        }
    }

    /// The human-readable message of this error.
    pub open spec fn message(&self) -> Seq<char> {
        match self {
            RouterError::MethodNotFound(m) => "Method not found: "@ + m@,
            RouterError::InvalidParams(m) => "Invalid parameters: "@ + m@,
            RouterError::Internal(m) => "Internal error: "@ + m@,
            RouterError::ToolNotFound(m) => "Tool not found: "@ + m@,
        }
    }

    /// The error object that carries this error.
    pub fn into_error_data(self) -> (r: ErrorData)
        ensures
            r.code == self.code(),
            r.message@ == self.message(),
    {
        match self {
            RouterError::MethodNotFound(m) => ErrorData {
                code: METHOD_NOT_FOUND,
                message: "Method not found: ".to_owned().concat(m.as_str()),
            },
            RouterError::InvalidParams(m) => ErrorData {
                code: INVALID_PARAMS,
                message: "Invalid parameters: ".to_owned().concat(m.as_str()),
            },
            RouterError::Internal(m) => ErrorData {
                code: INTERNAL_ERROR,
                message: "Internal error: ".to_owned().concat(m.as_str()),
            },
            RouterError::ToolNotFound(m) => ErrorData {
                code: INVALID_REQUEST,
                message: "Tool not found: ".to_owned().concat(m.as_str()),
            },
        }
    }
}

/// `r` answers a request with identifier `id`: it echoes the identifier and
/// sets exactly one of its result and its error.
pub open spec fn responds_to(r: JsonRpcResponse, id: Option<u64>) -> bool {
    &&& r.jsonrpc@ == "2.0"@
    &&& r.id == id
    &&& (r.result is Some) != (r.error is Some)
}

/// A response to the request `id`, with neither a result nor an error yet.
pub fn create_response(id: Option<u64>) -> (r: JsonRpcResponse)
    ensures
        r.jsonrpc@ == "2.0"@,
        r.id == id,
        r.result is None,
        r.error is None,
{
    JsonRpcResponse { jsonrpc: "2.0".to_owned(), id, result: None, error: None }
}

/// A successful response carrying `result`.
pub fn success(id: Option<u64>, result: Json) -> (r: JsonRpcResponse)
    ensures
        responds_to(r, id),
        r.result == Some(result),
{
    let mut response = create_response(id);
    response.result = Some(result);
    response
}

/// A failed response carrying `err`.
pub fn failure(id: Option<u64>, err: RouterError) -> (r: JsonRpcResponse)
    ensures
        responds_to(r, id),
        r.error is Some,
        r.error.unwrap().code == err.code(),
        r.error.unwrap().message@ == err.message(),
{
    let mut response = create_response(id);
    response.error = Some(err.into_error_data());
    response
}

/// `obj` holds the flag `key` exactly when `flag` is set, with its value.
pub open spec fn flag_is(obj: Json, key: Seq<char>, flag: Option<bool>) -> bool {
    match flag {
        Some(b) => member(obj, key) == Some(Json::Bool(b)),
        None => member(obj, key) is None,
    }
}

/// `v` advertises exactly the capabilities `caps`: a capability appears iff
/// it was enabled, with the flags it was enabled with.
pub open spec fn advertises(v: Json, caps: ServerCapabilities) -> bool {
    &&& v is Object
    &&& only_keys(v, seq!["tools"@, "prompts"@, "resources"@])
    &&& match caps.tools {
        Some(t) => member(v, "tools"@) is Some && only_keys(member(v, "tools"@).unwrap(), seq!["listChanged"@]) && flag_is(
            member(v, "tools"@).unwrap(),
            "listChanged"@,
            t.list_changed,
        ),
        None => member(v, "tools"@) is None,
    }
    &&& match caps.prompts {
        Some(p) => member(v, "prompts"@) is Some && only_keys(member(v, "prompts"@).unwrap(), seq!["listChanged"@]) && flag_is(
            member(v, "prompts"@).unwrap(),
            "listChanged"@,
            p.list_changed,
        ),
        None => member(v, "prompts"@) is None,
    }
    &&& match caps.resources {
        Some(r) => member(v, "resources"@) is Some && only_keys(
            member(v, "resources"@).unwrap(),
            seq!["subscribe"@, "listChanged"@],
        ) && flag_is(
            member(v, "resources"@).unwrap(),
            "subscribe"@,
            r.subscribe,
        ) && flag_is(member(v, "resources"@).unwrap(), "listChanged"@, r.list_changed),
        None => member(v, "resources"@) is None,
    }
}

/// An object holding the flag `key` when it is set.
fn flag_json(key: &str, flag: Option<bool>) -> (r: Json)
    ensures
        flag_is(r, key@, flag),
        only_keys(r, seq![key@]),
{
    let mut entries: Vec<(String, Json)> = Vec::new();
    if let Some(b) = flag {
        entries.push((key.to_owned(), Json::Bool(b)));
    }
    proof {
        reveal_with_fuel(lookup, 2);
        let ks = seq![key@];
        assert forall|i: int| 0 <= i < entries@.len() implies ks.contains((#[trigger] entries@[i]).0@) by {
            assert(ks[0] == key@);
        }
        lemma_only_keys(entries@, ks);
    }
    Json::Object(entries)
}

/// An object holding each of two distinct flags that is set.
fn flags_json(k1: &str, f1: Option<bool>, k2: &str, f2: Option<bool>) -> (r: Json)
    requires
        k1@ != k2@,
    ensures
        flag_is(r, k1@, f1),
        flag_is(r, k2@, f2),
        only_keys(r, seq![k1@, k2@]),
{
    let ghost ks = seq![k1@, k2@];
    let mut entries: Vec<(String, Json)> = Vec::new();
    if let Some(b) = f1 {
        entries.push((k1.to_owned(), Json::Bool(b)));
    }
    assert(forall|i: int| 0 <= i < entries@.len() ==> (#[trigger] entries@[i]).0@ == k1@);
    if let Some(b) = f2 {
        entries.push((k2.to_owned(), Json::Bool(b)));
    }
    proof {
        reveal_with_fuel(lookup, 3);
        assert forall|i: int| 0 <= i < entries@.len() implies ks.contains((#[trigger] entries@[i]).0@) by {
            assert(ks[0] == k1@ && ks[1] == k2@);
        }
        lemma_only_keys(entries@, ks);
    }
    Json::Object(entries)
}

/// The JSON form of a capability set.
pub fn capabilities_json(caps: ServerCapabilities) -> (r: Json)
    ensures
        advertises(r, caps),
{
    proof {
        reveal_strlit("tools");
        reveal_strlit("prompts");
        reveal_strlit("resources");
        reveal_strlit("subscribe");
        reveal_strlit("listChanged");
        assert("subscribe"@.len() != "listChanged"@.len());
        assert("tools"@.len() != "prompts"@.len());
        assert("tools"@.len() != "resources"@.len());
        assert("prompts"@.len() != "resources"@.len());
    }
    let ghost ks = seq!["tools"@, "prompts"@, "resources"@];
    let mut entries: Vec<(String, Json)> = Vec::new();
    if let Some(t) = caps.tools {
        entries.push(("tools".to_owned(), flag_json("listChanged", t.list_changed)));
    }
    assert(forall|i: int| 0 <= i < entries@.len() ==> (#[trigger] entries@[i]).0@ == "tools"@);
    if let Some(p) = caps.prompts {
        entries.push(("prompts".to_owned(), flag_json("listChanged", p.list_changed)));
    }
    assert(forall|i: int| 0 <= i < entries@.len() ==> (#[trigger] entries@[i]).0@ == "tools"@ || entries@[i].0@ == "prompts"@);
    if let Some(res) = caps.resources {
        entries.push(
            ("resources".to_owned(), flags_json("subscribe", res.subscribe, "listChanged", res.list_changed)),
        );
    }
    proof {
        reveal_with_fuel(lookup, 4);
        assert forall|i: int| 0 <= i < entries@.len() implies ks.contains((#[trigger] entries@[i]).0@) by {
            assert(ks[0] == "tools"@ && ks[1] == "prompts"@ && ks[2] == "resources"@);
        }
        lemma_only_keys(entries@, ks);
    }
    Json::Object(entries)
}

/// `v` is the result of `initialize` for the capability set `caps`.
pub open spec fn initialize_result_is(v: Json, caps: ServerCapabilities) -> bool {
    &&& only_keys(v, seq!["protocolVersion"@, "capabilities"@, "serverInfo"@])
    &&& text_of(member(v, "protocolVersion"@)) == Some(PROTOCOL_VERSION@)
    &&& member(v, "capabilities"@) is Some
    &&& advertises(member(v, "capabilities"@).unwrap(), caps)
    &&& member(v, "serverInfo"@) is Some
    &&& only_keys(member(v, "serverInfo"@).unwrap(), seq!["name"@, "version"@])
    &&& text_of(member(member(v, "serverInfo"@).unwrap(), "name"@)) == Some(SERVER_NAME@)
    &&& text_of(member(member(v, "serverInfo"@).unwrap(), "version"@)) == Some(SERVER_VERSION@)
}

/// The result of `initialize`: protocol version, capabilities and server identity.
pub fn initialize_result(caps: ServerCapabilities) -> (r: Json)
    ensures
        initialize_result_is(r, caps),
{
    proof {
        reveal_strlit("protocolVersion");
        reveal_strlit("capabilities");
        reveal_strlit("serverInfo");
        reveal_strlit("name");
        reveal_strlit("version");
        reveal_with_fuel(lookup, 4);
        assert("protocolVersion"@.len() == 15 && "capabilities"@.len() == 12);
        assert("serverInfo"@.len() == 10 && "name"@.len() == 4 && "version"@.len() == 7);
    }
    let info = object2(
        "name",
        Json::Str(SERVER_NAME.to_owned()),
        "version",
        Json::Str(SERVER_VERSION.to_owned()),
    );
    object3(
        "protocolVersion",
        Json::Str(PROTOCOL_VERSION.to_owned()),
        "capabilities",
        capabilities_json(caps),
        "serverInfo",
        info,
    )
}

/// The answer to `initialize`; it always succeeds.
pub fn handle_initialize(id: Option<u64>, caps: ServerCapabilities) -> (r: JsonRpcResponse)
    ensures
        responds_to(r, id),
        r.result is Some,
        initialize_result_is(r.result.unwrap(), caps),
{
    success(id, initialize_result(caps))
}

/// `v` describes the tool `t`: its name, description and input schema.
pub open spec fn describes_tool(v: Json, t: Tool) -> bool {
    &&& only_keys(v, seq!["name"@, "description"@, "inputSchema"@])
    &&& text_of(member(v, "name"@)) == Some(t.name@)
    &&& text_of(member(v, "description"@)) == Some(t.description@)
    &&& member(v, "inputSchema"@) == Some(t.input_schema)
}

/// `v` lists exactly the tools `tools`, in order.
pub open spec fn lists_tools(v: Json, tools: Seq<Tool>) -> bool {
    &&& only_keys(v, seq!["tools"@])
    &&& elements(member(v, "tools"@)) is Some
    &&& elements(member(v, "tools"@)).unwrap().len() == tools.len()
    &&& forall|i: int|
        0 <= i < tools.len() ==> describes_tool(
            #[trigger] elements(member(v, "tools"@)).unwrap()[i],
            tools[i],
        )
}

/// The JSON description of a tool.
pub fn tool_json(t: Tool) -> (r: Json)
    ensures
        describes_tool(r, t),
{
    proof {
        reveal_strlit("name");
        reveal_strlit("description");
        reveal_strlit("inputSchema");
        reveal_with_fuel(lookup, 4);
        assert("name"@.len() == 4 && "description"@.len() == 11);
        assert("description"@[0] != "inputSchema"@[0]);
    }
    let Tool { name, description, input_schema } = t;
    object3("name", Json::Str(name), "description", Json::Str(description), "inputSchema", input_schema)
}

/// The result of `tools/list`: every tool, with no pagination.
pub fn tools_list_result(tools: Vec<Tool>) -> (r: Json)
    ensures
        lists_tools(r, tools@),
{
    let ghost all = tools@;
    let mut rest = tools;
    let mut items: Vec<Json> = Vec::new();
    while rest.len() > 0
        invariant
            items@.len() + rest@.len() == all.len(),
            rest@ == all.subrange(items@.len() as int, all.len() as int),
            forall|i: int| 0 <= i < items@.len() ==> describes_tool(#[trigger] items@[i], all[i]),
        decreases rest@.len(),
    {
        let ghost k = items@.len();
        let t = rest.remove(0);
        assert(t == all[k as int]);
        items.push(tool_json(t));
        assert(rest@ =~= all.subrange(items@.len() as int, all.len() as int));
    }
    object1("tools", Json::Array(items))
}

/// The answer to `tools/list`; it always succeeds.
pub fn handle_tools_list(id: Option<u64>, tools: Vec<Tool>) -> (r: JsonRpcResponse)
    ensures
        responds_to(r, id),
        r.result is Some,
        lists_tools(r.result.unwrap(), tools@),
{
    success(id, tools_list_result(tools))
}

/// The arguments a `tools/call` with parameters `p` hands to the tool: its
/// `arguments` member, or null when there is none.
pub open spec fn call_arguments(p: Json) -> Json {
    match member(p, "arguments"@) {
        Some(a) => a,
        None => Json::Null,
    }
}

/// Reads the tool call out of the parameters of a `tools/call` request.
/// It fails with invalid parameters when there are no parameters or when
/// `name` is missing or not a string.
pub fn read_tool_call(params: Option<Json>) -> (r: Result<ToolCall, RouterError>)
    ensures
        match params {
            Some(p) => match text_of(member(p, "name"@)) {
                Some(name) => r is Ok && r->Ok_0.name@ == name && r->Ok_0.arguments
                    == call_arguments(p),
                None => r is Err && r->Err_0 is InvalidParams,
            },
            None => r is Err && r->Err_0 is InvalidParams,
        },
{
    let p = match params {
        Some(p) => p,
        None => {
            return Err(RouterError::InvalidParams("Missing parameters".to_owned()));
        },
    };
    let name = match p.get("name") {
        Some(v) => match v.as_str() {
            Some(s) => s.to_owned(),
            None => {
                return Err(RouterError::InvalidParams("Missing tool name".to_owned()));
            },
        },
        None => {
            return Err(RouterError::InvalidParams("Missing tool name".to_owned()));
        },
    };
    let arguments = match p.into_member("arguments") {
        Some(a) => a,
        None => Json::Null,
    };
    Ok(ToolCall { name, arguments })
}

/// `v` is the result of a tool call: one text item holding `text`, and the
/// error flag `is_error`.
pub open spec fn tool_result_is(v: Json, text: Seq<char>, is_error: bool) -> bool {
    &&& only_keys(v, seq!["content"@, "isError"@])
    &&& only_keys(elements(member(v, "content"@)).unwrap()[0], seq!["type"@, "text"@])
    &&& elements(member(v, "content"@)) is Some
    &&& elements(member(v, "content"@)).unwrap().len() == 1
    &&& text_of(member(elements(member(v, "content"@)).unwrap()[0], "type"@)) == Some("text"@)
    &&& text_of(member(elements(member(v, "content"@)).unwrap()[0], "text"@)) == Some(text)
    &&& member(v, "isError"@) == Some(Json::Bool(is_error))
}

/// The result of a tool call: the tool's output, or the message of its failure
/// marked as an error.
pub fn call_tool_result(text: String, is_error: bool) -> (r: Json)
    ensures
        tool_result_is(r, text@, is_error),
{
    proof {
        reveal_strlit("content");
        reveal_strlit("isError");
        reveal_strlit("type");
        reveal_strlit("text");
        reveal_with_fuel(lookup, 3);
        assert("content"@[0] != "isError"@[0]);
        assert("type"@[1] != "text"@[1]);
    }
    let item = object2("type", Json::Str("text".to_owned()), "text", Json::Str(text));
    object2("content", Json::Array(vec![item]), "isError", Json::Bool(is_error))
}

/// The answer to a `tools/call` once the tool has run. A failed tool gives a
/// successful response whose result is marked as an error.
pub fn complete_tool_call(id: Option<u64>, outcome: Result<Json, String>) -> (r: JsonRpcResponse)
    ensures
        responds_to(r, id),
        r.result is Some,
        match outcome {
            Ok(v) => tool_result_is(r.result.unwrap(), crate::json::json_text_of(v), false),
            Err(m) => tool_result_is(r.result.unwrap(), m@, true),
        },
{
    let result = match outcome {
        Ok(v) => call_tool_result(v.to_text(), false),
        Err(m) => call_tool_result(m, true),
    };
    success(id, result)
}

/// What the router does with a request: answer it at once, or run a tool
/// and then answer with `complete_tool_call`.
#[derive(Debug)]
pub enum Dispatch {
    Respond(JsonRpcResponse),
    CallTool { id: Option<u64>, call: ToolCall },
}

/// The methods the router answers.
pub open spec fn is_known_method(m: Seq<char>) -> bool {
    m == "initialize"@ || m == "tools/list"@ || m == "tools/call"@
}

/// The decision for a `tools/call` request.
pub fn dispatch_tools_call(id: Option<u64>, params: Option<Json>) -> (r: Dispatch)
    ensures
        match params {
            Some(p) => match text_of(member(p, "name"@)) {
                Some(name) => r is CallTool && r->CallTool_id == id && r->CallTool_call.name@ == name
                    && r->CallTool_call.arguments == call_arguments(p),
                None => r is Respond && responds_to(r->Respond_0, id) && r->Respond_0.error is Some
                    && r->Respond_0.error.unwrap().code == INVALID_PARAMS,
            },
            None => r is Respond && responds_to(r->Respond_0, id) && r->Respond_0.error is Some
                && r->Respond_0.error.unwrap().code == INVALID_PARAMS,
        },
{
    match read_tool_call(params) {
        Ok(call) => Dispatch::CallTool { id, call },
        Err(e) => Dispatch::Respond(failure(id, e)),
    }
}

/// The answer to a method the router does not know.
pub fn method_not_found(id: Option<u64>, method: String) -> (r: JsonRpcResponse)
    ensures
        responds_to(r, id),
        r.error is Some,
        r.error.unwrap().code == METHOD_NOT_FOUND,
        r.error.unwrap().message@ == "Method not found: "@ + method@,
{
    failure(id, RouterError::MethodNotFound(method))
}

/// What a router offers: its capabilities and its tools. Running a tool is
/// left to the caller of `RouterService::dispatch`.
pub trait Router {
    fn capabilities(&self) -> ServerCapabilities;

    fn list_tools(&self) -> Vec<Tool>;
}

/// A router behind the JSON-RPC dispatcher.
pub struct RouterService<T>(pub T);

impl<T: Router> RouterService<T> {
    /// Decides what to do with `req`. Every answer echoes the request's
    /// identifier and sets exactly one of result and error.
    pub fn dispatch(&self, req: JsonRpcRequest) -> (r: Dispatch)
        ensures
            r is Respond ==> responds_to(r->Respond_0, req.id),
            r is CallTool ==> r->CallTool_id == req.id,
            req.method@ == "initialize"@ ==> r is Respond && r->Respond_0.result is Some && exists|
                c: ServerCapabilities,
            | initialize_result_is(r->Respond_0.result.unwrap(), c),
            req.method@ == "tools/list"@ ==> r is Respond && r->Respond_0.result is Some && exists|
                ts: Seq<Tool>,
            | lists_tools(r->Respond_0.result.unwrap(), ts),
            req.method@ == "tools/call"@ ==> match req.params {
                Some(p) => match text_of(member(p, "name"@)) {
                    Some(name) => r is CallTool && r->CallTool_call.name@ == name
                        && r->CallTool_call.arguments == call_arguments(p),
                    None => r is Respond && r->Respond_0.error is Some
                        && r->Respond_0.error.unwrap().code == INVALID_PARAMS,
                },
                None => r is Respond && r->Respond_0.error is Some
                    && r->Respond_0.error.unwrap().code == INVALID_PARAMS,
            },
            !is_known_method(req.method@) ==> r is Respond && r->Respond_0.error is Some
                && r->Respond_0.error.unwrap().code == METHOD_NOT_FOUND
                && r->Respond_0.error.unwrap().message@ == "Method not found: "@ + req.method@,
    {
        proof {
            reveal_strlit("initialize");
            reveal_strlit("tools/list");
            reveal_strlit("tools/call");
            assert("initialize"@[0] != "tools/list"@[0]);
            assert("initialize"@[0] != "tools/call"@[0]);
            assert("tools/list"@[6] != "tools/call"@[6]);
        }
        let JsonRpcRequest { jsonrpc: _, id, method, params } = req;
        if same_text(method.as_str(), "initialize") {
            let caps = self.0.capabilities();
            let response = handle_initialize(id, caps);
            assert(initialize_result_is(response.result.unwrap(), caps));
            Dispatch::Respond(response)
        } else if same_text(method.as_str(), "tools/list") {
            let tools = self.0.list_tools();
            let ghost ts = tools@;
            let response = handle_tools_list(id, tools);
            assert(lists_tools(response.result.unwrap(), ts));
            Dispatch::Respond(response)
        } else if same_text(method.as_str(), "tools/call") {
            dispatch_tools_call(id, params)
        } else {
            Dispatch::Respond(method_not_found(id, method))
        }
    }
}

} // verus!
