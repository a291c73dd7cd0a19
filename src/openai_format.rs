//! The OpenAI-style wire format: building a request payload from the
//! canonical model, and reading a reply, its usage and its errors back.
use vstd::prelude::*;
use vstd::string::StringExecFns;
use crate::json::{Json, lookup, put_member, only_keys, member, text_of, elements, json_text_of, json_parse_of, same_text, object2, object3, text};
use crate::message::{Content, Message, MessageContent, Role, Tool, ToolCall, ToolError};
use crate::usage::Usage;

verus! {

/// Why a call to a backend failed.
#[derive(Debug)]
pub enum ProviderError {
    /// The request could not be sent or no answer came back.
    NetworkError(String),
    /// The backend refused the credentials.
    Authentication(String),
    /// The conversation is longer than the model accepts.
    ContextLengthExceeded(String),
    /// The backend reported an error.
    ApiError(String),
    /// The reply carries no usable usage data.
    UsageError(String),
    /// The request could not be built.
    RequestError(String),
}

/// The member `k` of `v`, when `v` is present and an object that has it.
pub open spec fn member_of(v: Option<Json>, k: Seq<char>) -> Option<Json> {
    match v {
        Some(j) => member(j, k),
        None => None,
    }
}

/// The text of `v`, or the empty text when it is not a string.
pub open spec fn text_or_empty(v: Option<Json>) -> Seq<char> {
    match text_of(v) {
        Some(t) => t,
        None => Seq::empty(),
    }
}

/// A token count: a non-negative integer, else unknown.
pub open spec fn count_of(v: Option<Json>) -> Option<u64> {
    match v {
        Some(Json::Int(n)) => if n >= 0 {
            Some(n as u64)
        } else {
            None
        },
        _ => None,
    }
}

/// The usage a reply reports: each count read on its own from the `usage`
/// object, or `None` when the reply has no `usage` member.
pub open spec fn usage_of(response: Json) -> Option<Usage> {
    match member(response, "usage"@) {
        Some(u) => Some(
            Usage {
                input_tokens: count_of(member(u, "prompt_tokens"@)),
                output_tokens: count_of(member(u, "completion_tokens"@)),
                total_tokens: count_of(member(u, "total_tokens"@)),
            },
        ),
        None => None,
    }
}

fn read_count(v: Option<&Json>) -> (r: Option<u64>)
    ensures
        r == count_of(match v {
            Some(j) => Some(*j),
            None => None,
        }),
{
    match v {
        Some(Json::Int(n)) => if *n >= 0 {
            Some(*n as u64)
        } else {
            None
        },
        _ => None,
    }
}

/// The usage a reply reports. A reply without usage data is a usage error.
pub fn get_usage(response: &Json) -> (r: Result<Usage, ProviderError>)
    ensures
        match usage_of(*response) {
            Some(u) => r == Ok::<Usage, ProviderError>(u),
            None => r is Err && r->Err_0 is UsageError,
        },
{
    match response.get("usage") {
        Some(u) => Ok(
            Usage {
                input_tokens: read_count(u.get("prompt_tokens")),
                output_tokens: read_count(u.get("completion_tokens")),
                total_tokens: read_count(u.get("total_tokens")),
            },
        ),
        None => Err(ProviderError::UsageError("No usage data in response".to_owned())),
    }
}

/// The model a reply names, or `Unknown`.
pub fn get_model(response: &Json) -> (r: String)
    ensures
        r@ == (match text_of(member(*response, "model"@)) {
            Some(t) => t,
            None => "Unknown"@,
        }),
{
    match response.get("model") {
        Some(m) => match m.as_str() {
            Some(s) => s.to_owned(),
            None => "Unknown".to_owned(),
        },
        None => "Unknown".to_owned(),
    }
}

/// The codes by which a backend says that the context is too long.
pub open spec fn is_context_length_code(code: Seq<char>) -> bool {
    code == "context_length_exceeded"@ || code == "string_above_max_length"@
}

/// The context-length error that the error object `error` reports, if it
/// reports one; its message, or `Unknown error`, is kept.
pub fn check_context_length_error(error: &Json) -> (r: Option<ProviderError>)
    ensures
        match text_of(member(*error, "code"@)) {
            Some(code) => if is_context_length_code(code) {
                r is Some && r->Some_0 is ContextLengthExceeded
                    && r->Some_0->ContextLengthExceeded_0@ == (match text_of(
                    member(*error, "message"@),
                ) {
                    Some(m) => m,
                    None => "Unknown error"@,
                })
            } else {
                r is None
            },
            None => r is None,
        },
{
    let code = match error.get("code") {
        Some(c) => match c.as_str() {
            Some(s) => s,
            None => {
                return None;
            },
        },
        None => {
            return None;
        },
    };
    if same_text(code, "context_length_exceeded") || same_text(code, "string_above_max_length") {
        let message = match error.get("message") {
            Some(m) => match m.as_str() {
                Some(s) => s.to_owned(),
                None => "Unknown error".to_owned(),
            },
            None => "Unknown error".to_owned(),
        };
        Some(ProviderError::ContextLengthExceeded(message))
    } else {
        None
    }
}

/// A character that a function name may hold: `[a-zA-Z0-9_-]`.
pub open spec fn is_name_char(c: char) -> bool {
    ('a' <= c && c <= 'z') || ('A' <= c && c <= 'Z') || ('0' <= c && c <= '9') || c == '_' || c
        == '-'
}

/// A valid function name: one or more of `[a-zA-Z0-9_-]`.
pub open spec fn is_valid_name(s: Seq<char>) -> bool {
    s.len() > 0 && forall|i: int| 0 <= i < s.len() ==> is_name_char(#[trigger] s[i])
}

/// Whether `name` is a valid function name.
pub fn is_valid_function_name(name: &str) -> (r: bool)
    ensures
        r == is_valid_name(name@),
{
    let n = name.unicode_len();
    if n == 0 {
        return false;
    }
    let mut i: usize = 0;
    while i < n
        invariant
            n == name@.len(),
            0 <= i <= n,
            forall|j: int| 0 <= j < i ==> is_name_char(#[trigger] name@[j]),
        decreases n - i,
    {
        let c = name.get_char(i);
        if !(('a' <= c && c <= 'z') || ('A' <= c && c <= 'Z') || ('0' <= c && c <= '9') || c == '_'
            || c == '-') {
            return false;
        }
        i = i + 1;
    }
    true
}

/// The message object of the first choice of a reply, or null.
pub open spec fn reply_of(response: Json) -> Json {
    match elements(member(response, "choices"@)) {
        Some(items) => if items.len() > 0 {
            match member(items[0], "message"@) {
                Some(m) => m,
                None => Json::Null,
            }
        } else {
            Json::Null
        },
        None => Json::Null,
    }
}

/// The tool calls of a reply message: the items of its `tool_calls` array.
pub open spec fn tool_calls_of(m: Json) -> Seq<Json> {
    match elements(member(m, "tool_calls"@)) {
        Some(items) => items,
        None => Seq::empty(),
    }
}

/// `c` is the tool request read from the tool call `tc`: its identifier, and
/// its name and parsed arguments; or an error when the name is invalid or the
/// arguments are not JSON.
pub open spec fn reads_tool_call(c: MessageContent, tc: Json) -> bool {
    let id = text_or_empty(member(tc, "id"@));
    let name = text_or_empty(member_of(member(tc, "function"@), "name"@));
    let args = text_or_empty(member_of(member(tc, "function"@), "arguments"@));
    &&& c is ToolRequest
    &&& c->ToolRequest_id@ == id
    &&& if !is_valid_name(name) {
        c->ToolRequest_tool_call is Err && c->ToolRequest_tool_call->Err_0 is NotFound
    } else {
        match json_parse_of(args) {
            Some(v) => c->ToolRequest_tool_call is Ok && c->ToolRequest_tool_call->Ok_0.name@ == name
                && c->ToolRequest_tool_call->Ok_0.arguments == v,
            None => c->ToolRequest_tool_call is Err && c->ToolRequest_tool_call->Err_0 is InvalidParameters,
        }
    }
}

/// The message object of the first choice of a reply.
fn reply_message(response: &Json) -> (r: Option<&Json>)
    ensures
        match r {
            Some(m) => *m == reply_of(*response),
            None => reply_of(*response) == Json::Null,
        },
{
    match response.get("choices") {
        Some(Json::Array(items)) => if items.len() > 0 {
            items[0].get("message")
        } else {
            None
        },
        _ => None,
    }
}

/// The text of `v`, or the empty text.
fn text_or_default(v: Option<&Json>) -> (r: String)
    ensures
        r@ == text_or_empty(match v {
            Some(j) => Some(*j),
            None => None,
        }),
{
    match v {
        Some(j) => match j.as_str() {
            Some(s) => s.to_owned(),
            None => String::new(),
        },
        None => String::new(),
    }
}

/// The tool request read from one tool call of a reply.
fn read_tool_request(tc: &Json) -> (r: MessageContent)
    ensures
        reads_tool_call(r, *tc),
{
    let id = text_or_default(tc.get("id"));
    let (name, args) = match tc.get("function") {
        Some(f) => (text_or_default(f.get("name")), text_or_default(f.get("arguments"))),
        None => (String::new(), String::new()),
    };
    if !is_valid_function_name(name.as_str()) {
        let msg = "The provided function name '".to_owned().concat(name.as_str()).concat(
            "' had invalid characters, it must match this regex [a-zA-Z0-9_-]+",
        );
        return MessageContent::ToolRequest { id, tool_call: Err(ToolError::NotFound(msg)) };
    }
    match Json::parse(args.as_str()) {
        Some(v) => MessageContent::ToolRequest {
            id,
            tool_call: Ok(ToolCall { name, arguments: v }),
        },
        None => {
            let msg = "Could not interpret tool use parameters for id ".to_owned().concat(id.as_str());
            MessageContent::ToolRequest { id, tool_call: Err(ToolError::InvalidParameters(msg)) }
        },
    }
}

/// The number of items that a reply message's text gives: one when its
/// `content` is a string.
pub open spec fn text_items(m: Json) -> int {
    if text_of(member(m, "content"@)) is Some {
        1
    } else {
        0
    }
}

/// `r` is the assistant message read from `response`: the text of its first
/// choice, if any, then one tool request per structured tool call, in order.
pub open spec fn reads_reply(r: Message, response: Json) -> bool {
    let m = reply_of(response);
    &&& r.role == Role::Assistant
    &&& r.content@.len() == text_items(m) + tool_calls_of(m).len()
    &&& text_items(m) == 1 ==> r.content@[0] is Text && r.content@[0]->Text_0@ == text_of(
        member(m, "content"@),
    ).unwrap()
    &&& forall|j: int|
        0 <= j < tool_calls_of(m).len() ==> reads_tool_call(
            #[trigger] r.content@[text_items(m) + j],
            tool_calls_of(m)[j],
        )
}

/// The assistant message read from a reply.
pub fn response_to_message(response: &Json) -> (r: Message)
    ensures
        reads_reply(r, *response),
{
    let ghost m = reply_of(*response);
    let mut content: Vec<MessageContent> = Vec::new();
    let reply = reply_message(response);
    match reply {
        Some(msg) => {
            match msg.get("content") {
                Some(t) => match t.as_str() {
                    Some(s) => content.push(MessageContent::Text(s.to_owned())),
                    None => {},
                },
                None => {},
            }
            match msg.get("tool_calls") {
                Some(Json::Array(calls)) => {
                    let base = content.len();
                    let mut j: usize = 0;
                    while j < calls.len()
                        invariant
                            *msg == m,
                            base == text_items(m),
                            elements(member(m, "tool_calls"@)) == Some(calls@),
                            0 <= j <= calls@.len(),
                            content@.len() == base + j,
                            base == 1 ==> content@[0] is Text && content@[0]->Text_0@ == text_of(
                                member(m, "content"@),
                            ).unwrap(),
                            forall|q: int|
                                0 <= q < j ==> reads_tool_call(
                                    #[trigger] content@[base + q],
                                    calls@[q],
                                ),
                        decreases calls@.len() - j,
                    {
                        let c = read_tool_request(&calls[j]);
                        content.push(c);
                        j = j + 1;
                    }
                },
                _ => {},
            }
        },
        None => {},
    }
    Message { role: Role::Assistant, content }
}

/// The name of a role on the wire.
pub open spec fn role_name(r: Role) -> Seq<char> {
    match r {
        Role::User => "user"@,
        Role::Assistant => "assistant"@,
    }
}

/// The text of a tool error.
pub open spec fn tool_error_text(e: ToolError) -> Seq<char> {
    match e {
        ToolError::InvalidParameters(m) => "Invalid parameters: "@ + m@,
        ToolError::NotFound(m) => "Tool not found: "@ + m@,
        ToolError::ExecutionError(m) => "Execution failed: "@ + m@,
    }
}

/// The text of one item of a tool result; an image gives none.
pub open spec fn content_text(c: Content) -> Seq<char> {
    match c {
        Content::Text { text } => text@,
        Content::Image { .. } => Seq::empty(),
    }
}

/// The texts of a tool result, joined by single spaces.
pub open spec fn joined_text(cs: Seq<Content>) -> Seq<char>
    decreases cs.len(),
{
    if cs.len() == 0 {
        Seq::empty()
    } else if cs.len() == 1 {
        content_text(cs[0])
    } else {
        joined_text(cs.drop_last()) + " "@ + content_text(cs.last())
    }
}

/// `j` is the wire form of the item `c` of a message from `role`.
pub open spec fn encodes_item(j: Json, role: Role, c: MessageContent) -> bool {
    match c {
        MessageContent::Text(t) => {
            &&& only_keys(j, seq!["role"@, "content"@])
            &&& text_of(member(j, "role"@)) == Some(role_name(role))
            &&& text_of(member(j, "content"@)) == Some(t@)
        },
        MessageContent::Image { data, mime_type } => {
            let parts = elements(member(j, "content"@));
            &&& only_keys(j, seq!["role"@, "content"@])
            &&& text_of(member(j, "role"@)) == Some(role_name(role))
            &&& parts is Some
            &&& parts.unwrap().len() == 1
            &&& only_keys(parts.unwrap()[0], seq!["type"@, "image_url"@])
            &&& text_of(member(parts.unwrap()[0], "type"@)) == Some("image_url"@)
            &&& member(parts.unwrap()[0], "image_url"@) is Some
            &&& only_keys(member(parts.unwrap()[0], "image_url"@).unwrap(), seq!["url"@, "detail"@])
            &&& text_of(member_of(member(parts.unwrap()[0], "image_url"@), "url"@)) == Some(
                "data:"@ + mime_type@ + ";base64,"@ + data@,
            )
            &&& text_of(member_of(member(parts.unwrap()[0], "image_url"@), "detail"@)) == Some(
                "auto"@,
            )
        },
        MessageContent::ToolRequest { id, tool_call } => {
            &&& text_of(member(j, "role"@)) == Some("assistant"@)
            &&& match tool_call {
                Ok(call) => {
                    &&& only_keys(j, seq!["role"@, "tool_calls"@])
                    &&& elements(member(j, "tool_calls"@)) is Some
                    &&& elements(member(j, "tool_calls"@)).unwrap().len() == 1
                    &&& encodes_call(elements(member(j, "tool_calls"@)).unwrap()[0], id@, call)
                },
                Err(e) => {
                    &&& only_keys(j, seq!["role"@, "content"@])
                    &&& text_of(member(j, "content"@)) == Some("Error: "@ + tool_error_text(e))
                },
            }
        },
        MessageContent::ToolResponse { id, tool_result } => {
            &&& only_keys(j, seq!["role"@, "content"@, "tool_call_id"@])
            &&& text_of(member(j, "role"@)) == Some("tool"@)
            &&& text_of(member(j, "tool_call_id"@)) == Some(id@)
            &&& match tool_result {
                Ok(cs) => text_of(member(j, "content"@)) == Some(joined_text(cs@)),
                Err(e) => text_of(member(j, "content"@)) == Some("Error: "@ + tool_error_text(e)),
            }
        },
    }
}

/// `j` is the wire form of a call of `call` with identifier `id`; its
/// arguments travel as JSON text.
pub open spec fn encodes_call(j: Json, id: Seq<char>, call: ToolCall) -> bool {
    &&& only_keys(j, seq!["id"@, "type"@, "function"@])
    &&& member(j, "function"@) is Some
    &&& only_keys(member(j, "function"@).unwrap(), seq!["name"@, "arguments"@])
    &&& text_of(member(j, "id"@)) == Some(id)
    &&& text_of(member(j, "type"@)) == Some("function"@)
    &&& text_of(member_of(member(j, "function"@), "name"@)) == Some(call.name@)
    &&& text_of(member_of(member(j, "function"@), "arguments"@)) == Some(json_text_of(call.arguments))
}

fn role_text(r: Role) -> (s: &'static str)
    ensures
        s@ == role_name(r),
{
    match r {
        Role::User => "user",
        Role::Assistant => "assistant",
    }
}

fn tool_error_string(e: &ToolError) -> (r: String)
    ensures
        r@ == "Error: "@ + tool_error_text(*e),
{
    let (prefix, m) = match e {
        ToolError::InvalidParameters(m) => ("Error: Invalid parameters: ", m),
        ToolError::NotFound(m) => ("Error: Tool not found: ", m),
        ToolError::ExecutionError(m) => ("Error: Execution failed: ", m),
    };
    proof {
        reveal_strlit("Error: Invalid parameters: ");
        reveal_strlit("Error: Tool not found: ");
        reveal_strlit("Error: Execution failed: ");
        reveal_strlit("Error: ");
        reveal_strlit("Invalid parameters: ");
        reveal_strlit("Tool not found: ");
        reveal_strlit("Execution failed: ");
        assert("Error: Invalid parameters: "@ =~= "Error: "@ + "Invalid parameters: "@);
        assert("Error: Tool not found: "@ =~= "Error: "@ + "Tool not found: "@);
        assert("Error: Execution failed: "@ =~= "Error: "@ + "Execution failed: "@);
    }
    let r = prefix.to_owned().concat(m.as_str());
    assert(r@ =~= "Error: "@ + tool_error_text(*e));
    r
}

fn joined_texts(cs: &Vec<Content>) -> (r: String)
    ensures
        r@ == joined_text(cs@),
{
    let mut out = String::new();
    let mut i: usize = 0;
    while i < cs.len()
        invariant
            0 <= i <= cs@.len(),
            out@ == joined_text(cs@.subrange(0, i as int)),
        decreases cs@.len() - i,
    {
        let piece: &str = match &cs[i] {
            Content::Text { text } => text.as_str(),
            Content::Image { .. } => "",
        };
        proof {
            reveal_strlit("");
            reveal_strlit(" ");
            assert(cs@.subrange(0, i + 1).drop_last() =~= cs@.subrange(0, i as int));
        }
        if i == 0 {
            out = piece.to_owned();
        } else {
            out = out.concat(" ").concat(piece);
        }
        i = i + 1;
    }
    assert(cs@.subrange(0, cs@.len() as int) =~= cs@);
    out
}

/// The wire form of the item `c` of a message from `role`.
pub fn encode_item(role: Role, c: &MessageContent) -> (r: Json)
    ensures
        encodes_item(r, role, *c),
{
    proof {
        reveal_strlit("role");
        reveal_strlit("content");
        reveal_strlit("tool_calls");
        reveal_strlit("tool_call_id");
        reveal_strlit("type");
        reveal_strlit("image_url");
        reveal_strlit("url");
        reveal_strlit("id");
        reveal_strlit("function");
        reveal_strlit("name");
        reveal_strlit("arguments");
        assert("role"@[0] != "type"@[0]);
        assert("type"@[0] != "id"@[0]);
        assert("name"@[0] != "arguments"@[0]);
        reveal_strlit("detail");
        assert("url"@.len() != "detail"@.len());
        assert("content"@.len() != "tool_call_id"@.len());
        assert("role"@.len() != "tool_call_id"@.len());
        assert("role"@.len() != "content"@.len());
    }
    match c {
        MessageContent::Text(t) => object2("role", text(role_text(role)), "content", text(t.as_str())),
        MessageContent::Image { data, mime_type } => {
            let url = "data:".to_owned().concat(mime_type.as_str()).concat(";base64,").concat(
                data.as_str(),
            );
            let part = object2(
                "type",
                text("image_url"),
                "image_url",
                object2("url", Json::Str(url), "detail", text("auto")),
            );
            object2("role", text(role_text(role)), "content", Json::Array(vec![part]))
        },
        MessageContent::ToolRequest { id, tool_call } => match tool_call {
            Ok(call) => {
                let function = object2(
                    "name",
                    text(call.name.as_str()),
                    "arguments",
                    Json::Str(call.arguments.to_text()),
                );
                let entry = object3(
                    "id",
                    text(id.as_str()),
                    "type",
                    text("function"),
                    "function",
                    function,
                );
                object2("role", text("assistant"), "tool_calls", Json::Array(vec![entry]))
            },
            Err(e) => object2("role", text("assistant"), "content", Json::Str(tool_error_string(e))),
        },
        MessageContent::ToolResponse { id, tool_result } => {
            let body = match tool_result {
                Ok(cs) => joined_texts(cs),
                Err(e) => tool_error_string(e),
            };
            object3(
                "role",
                text("tool"),
                "content",
                Json::Str(body),
                "tool_call_id",
                text(id.as_str()),
            )
        },
    }
}

/// The model a request is for, with its sampling parameters.
#[derive(Debug)]
pub struct ModelConfig {
    /// The backend's identifier of the model.
    pub model_name: String,
    /// The sampling temperature, as a JSON number written out, such as `0.7`.
    pub temperature: Option<String>,
    /// The most tokens the reply may hold.
    pub max_tokens: Option<u32>,
}

impl ModelConfig {
    /// The model `model_name`, with no sampling parameter set.
    pub fn new(model_name: String) -> (r: ModelConfig)
        ensures
            r.model_name@ == model_name@,
            r.temperature is None,
            r.max_tokens is None,
    {
        ModelConfig { model_name, temperature: None, max_tokens: None }
    }

    /// This configuration with the given temperature.
    pub fn with_temperature(self, temperature: Option<String>) -> (r: ModelConfig)
        ensures
            r.model_name == self.model_name,
            r.temperature == temperature,
            r.max_tokens == self.max_tokens,
    {
        ModelConfig { temperature, ..self }
    }
}

/// The items of a sequence of messages, each with the role of its message,
/// in order.
pub open spec fn flat_items(ms: Seq<Message>) -> Seq<(Role, MessageContent)>
    decreases ms.len(),
{
    if ms.len() == 0 {
        Seq::empty()
    } else {
        flat_items(ms.drop_last()) + Seq::new(
            ms.last().content@.len(),
            |i: int| (ms.last().role, ms.last().content@[i]),
        )
    }
}

/// No two tools share a name.
pub open spec fn names_distinct(tools: Seq<Tool>) -> bool {
    forall|i: int, j: int| 0 <= i < j < tools.len() ==> tools[i].name@ != tools[j].name@
}

/// `j` declares the tool `t` as a function.
pub open spec fn declares_tool(j: Json, t: Tool) -> bool {
    &&& only_keys(j, seq!["type"@, "function"@])
    &&& member(j, "function"@) is Some
    &&& only_keys(member(j, "function"@).unwrap(), seq!["name"@, "description"@, "parameters"@])
    &&& text_of(member(j, "type"@)) == Some("function"@)
    &&& text_of(member_of(member(j, "function"@), "name"@)) == Some(t.name@)
    &&& text_of(member_of(member(j, "function"@), "description"@)) == Some(t.description@)
    &&& member_of(member(j, "function"@), "parameters"@) == Some(t.input_schema)
}

/// The function declaration of a tool.
pub fn tool_declaration(t: Tool) -> (r: Json)
    ensures
        declares_tool(r, t),
{
    proof {
        reveal_strlit("type");
        reveal_strlit("function");
        reveal_strlit("name");
        reveal_strlit("description");
        reveal_strlit("parameters");
        assert("name"@.len() != "description"@.len());
        assert("name"@.len() != "parameters"@.len());
        assert("description"@.len() != "parameters"@.len());
        assert("type"@.len() != "function"@.len());
    }
    let Tool { name, description, input_schema } = t;
    let function = object3(
        "name",
        Json::Str(name),
        "description",
        Json::Str(description),
        "parameters",
        input_schema,
    );
    object2("type", text("function"), "function", function)
}

/// The first name that two of `tools` share, if any.
fn duplicate_name(tools: &Vec<Tool>) -> (r: Option<String>)
    ensures
        r is None <==> names_distinct(tools@),
{
    let mut j: usize = 0;
    while j < tools.len()
        invariant
            0 <= j <= tools@.len(),
            forall|a: int, b: int| 0 <= a < b < j ==> tools@[a].name@ != tools@[b].name@,
        decreases tools@.len() - j,
    {
        let mut i: usize = 0;
        while i < j
            invariant
                0 <= i <= j < tools@.len(),
                forall|a: int| 0 <= a < i ==> tools@[a].name@ != tools@[j as int].name@,
            decreases j - i,
        {
            if same_text(tools[i].name.as_str(), tools[j].name.as_str()) {
                return Some(tools[j].name.clone());
            }
            i = i + 1;
        }
        j = j + 1;
    }
    None
}

/// `p` is the request payload for `config`, `system`, `messages` and `tools`.
pub open spec fn is_request(
    p: Json,
    config: ModelConfig,
    system: Seq<char>,
    messages: Seq<Message>,
    tools: Seq<Tool>,
) -> bool {
    let items = flat_items(messages);
    let wire = elements(member(p, "messages"@));
    &&& p is Object
    &&& only_keys(p, seq!["model"@, "messages"@, "tools"@, "temperature"@, "max_tokens"@])
    &&& text_of(member(p, "model"@)) == Some(config.model_name@)
    &&& wire is Some
    &&& wire.unwrap().len() == 1 + items.len()
    &&& text_of(member(wire.unwrap()[0], "role"@)) == Some("system"@)
    &&& text_of(member(wire.unwrap()[0], "content"@)) == Some(system)
    &&& only_keys(wire.unwrap()[0], seq!["role"@, "content"@])
    &&& forall|q: int|
        0 <= q < items.len() ==> encodes_item(#[trigger] wire.unwrap()[1 + q], items[q].0, items[q].1)
    &&& if tools.len() == 0 {
        member(p, "tools"@) is None
    } else {
        &&& elements(member(p, "tools"@)) is Some
        &&& elements(member(p, "tools"@)).unwrap().len() == tools.len()
        &&& forall|i: int|
            0 <= i < tools.len() ==> declares_tool(
                #[trigger] elements(member(p, "tools"@)).unwrap()[i],
                tools[i],
            )
    }
    &&& match config.temperature {
        Some(t) => member(p, "temperature"@) == json_parse_of(t@),
        None => member(p, "temperature"@) is None,
    }
    &&& match config.max_tokens {
        Some(n) => member(p, "max_tokens"@) == Some(Json::Int(n as i64)),
        None => member(p, "max_tokens"@) is None,
    }
}

/// The temperature of `config` is absent, or text that is a JSON number.
pub open spec fn temperature_ok(config: ModelConfig) -> bool {
    match config.temperature {
        Some(t) => json_parse_of(t@) matches Some(v) && (v is Int || v is Decimal),
        None => true,
    }
}

/// `r` is what `create_request` gives for these inputs: a payload when the
/// tool names are distinct and the temperature is a number, else a request error.
pub open spec fn request_made(
    config: ModelConfig,
    system: Seq<char>,
    messages: Seq<Message>,
    tools: Seq<Tool>,
    r: Result<Json, ProviderError>,
) -> bool {
    &&& (r is Ok <==> (names_distinct(tools) && temperature_ok(config)))
    &&& r is Ok ==> is_request(r->Ok_0, config, system, messages, tools)
    &&& r is Err ==> r->Err_0 is RequestError
}

/// The wire form of every item of `messages`, after the system instruction.
fn encode_messages(system: &str, messages: &[Message]) -> (r: Vec<Json>)
    ensures
        r@.len() == 1 + flat_items(messages@).len(),
        text_of(member(r@[0], "role"@)) == Some("system"@),
        text_of(member(r@[0], "content"@)) == Some(system@),
        only_keys(r@[0], seq!["role"@, "content"@]),
        forall|q: int|
            0 <= q < flat_items(messages@).len() ==> encodes_item(
                #[trigger] r@[1 + q],
                flat_items(messages@)[q].0,
                flat_items(messages@)[q].1,
            ),
{
    proof {
        reveal_strlit("role");
        reveal_strlit("content");
        assert("role"@.len() != "content"@.len());
    }
    let mut out: Vec<Json> = vec![object2("role", text("system"), "content", text(system))];
    let mut i: usize = 0;
    assert(messages@.subrange(0, 0) =~= Seq::<Message>::empty());
    while i < messages.len()
        invariant
            0 <= i <= messages@.len(),
            out@.len() == 1 + flat_items(messages@.subrange(0, i as int)).len(),
            text_of(member(out@[0], "role"@)) == Some("system"@),
            text_of(member(out@[0], "content"@)) == Some(system@),
            only_keys(out@[0], seq!["role"@, "content"@]),
            forall|q: int|
                0 <= q < flat_items(messages@.subrange(0, i as int)).len() ==> encodes_item(
                    #[trigger] out@[1 + q],
                    flat_items(messages@.subrange(0, i as int))[q].0,
                    flat_items(messages@.subrange(0, i as int))[q].1,
                ),
        decreases messages@.len() - i,
    {
        let ghost base = flat_items(messages@.subrange(0, i as int));
        let m = &messages[i];
        let mut k: usize = 0;
        while k < m.content.len()
            invariant
                0 <= k <= m.content@.len(),
                out@.len() == 1 + base.len() + k,
                text_of(member(out@[0], "role"@)) == Some("system"@),
                text_of(member(out@[0], "content"@)) == Some(system@),
                only_keys(out@[0], seq!["role"@, "content"@]),
                forall|q: int|
                    0 <= q < base.len() ==> encodes_item(#[trigger] out@[1 + q], base[q].0, base[q].1),
                forall|q: int|
                    0 <= q < k ==> encodes_item(
                        #[trigger] out@[1 + base.len() + q],
                        m.role,
                        m.content@[q],
                    ),
            decreases m.content@.len() - k,
        {
            out.push(encode_item(m.role, &m.content[k]));
            k = k + 1;
        }
        proof {
            let next = messages@.subrange(0, i + 1);
            assert(next.drop_last() =~= messages@.subrange(0, i as int));
            assert(next.last() == *m);
            let items = flat_items(next);
            assert forall|q: int| 0 <= q < items.len() implies encodes_item(
                #[trigger] out@[1 + q],
                items[q].0,
                items[q].1,
            ) by {
                if q >= base.len() {
                    assert(out@[1 + q] == out@[1 + base.len() + (q - base.len())]);
                }
            }
        }
        i = i + 1;
    }
    assert(messages@.subrange(0, messages@.len() as int) =~= messages@);
    out
}

/// The request payload: the model, the system instruction and the messages,
/// the tools when there are any, and the sampling parameters that are set.
/// Two tools with one name, or a temperature that is not a number, are refused.
pub fn create_request(config: &ModelConfig, system: &str, messages: &[Message], tools: Vec<Tool>) -> (r:
    Result<Json, ProviderError>)
    ensures
        request_made(*config, system@, messages@, tools@, r),
{
    let temperature = match &config.temperature {
        Some(t) => match Json::parse(t.as_str()) {
            Some(Json::Int(n)) => Some(Json::Int(n)),
            Some(Json::Decimal(d)) => Some(Json::Decimal(d)),
            _ => {
                return Err(ProviderError::RequestError("Invalid temperature: ".to_owned().concat(t.as_str())));
            },
        },
        None => None,
    };
    if let Some(name) = duplicate_name(&tools) {
        return Err(ProviderError::RequestError("Duplicate tool name: ".to_owned().concat(name.as_str())));
    }
    let ghost all = tools@;
    let wire = encode_messages(system, messages);
    let mut entries: Vec<(String, Json)> = Vec::new();
    put_member(&mut entries, "model".to_owned(), text(config.model_name.as_str()));
    put_member(&mut entries, "messages".to_owned(), Json::Array(wire));
    if tools.len() > 0 {
        let mut rest = tools;
        let mut decls: Vec<Json> = Vec::new();
        while rest.len() > 0
            invariant
                decls@.len() + rest@.len() == all.len(),
                rest@ == all.subrange(decls@.len() as int, all.len() as int),
                forall|i: int| 0 <= i < decls@.len() ==> declares_tool(#[trigger] decls@[i], all[i]),
            decreases rest@.len(),
        {
            let ghost k = decls@.len();
            let t = rest.remove(0);
            assert(t == all[k as int]);
            decls.push(tool_declaration(t));
            assert(rest@ =~= all.subrange(decls@.len() as int, all.len() as int));
        }
        put_member(&mut entries, "tools".to_owned(), Json::Array(decls));
    }
    match temperature {
        Some(t) => put_member(&mut entries, "temperature".to_owned(), t),
        None => {},
    }
    match config.max_tokens {
        Some(n) => put_member(&mut entries, "max_tokens".to_owned(), Json::Int(n as i64)),
        None => {},
    }
    proof {
        reveal_with_fuel(lookup, 1);
        reveal_strlit("model");
        reveal_strlit("messages");
        reveal_strlit("tools");
        reveal_strlit("temperature");
        reveal_strlit("max_tokens");
        assert("model"@.len() != "messages"@.len());
        assert("model"@.len() != "max_tokens"@.len());
        assert("messages"@.len() != "max_tokens"@.len());
        assert("model"@.len() != "temperature"@.len());
        assert("messages"@.len() != "temperature"@.len());
        assert("max_tokens"@.len() != "temperature"@.len());
        assert("tools"@[0] != "model"@[0]);
        assert("tools"@.len() != "messages"@.len());
        assert("tools"@.len() != "temperature"@.len());
        assert("tools"@.len() != "max_tokens"@.len());
        let ks = seq!["model"@, "messages"@, "tools"@, "temperature"@, "max_tokens"@];
        assert(ks[0] == "model"@ && ks[1] == "messages"@ && ks[2] == "tools"@ && ks[3] == "temperature"@ && ks[4] == "max_tokens"@);
        assert forall|k: Seq<char>| #[trigger] lookup(entries@, k) is Some implies ks.contains(k) by {
            if !ks.contains(k) {
                assert(lookup(Seq::<(String, Json)>::empty(), k) is None);
            }
        }
    }
    Ok(Json::Object(entries))
}

} // verus!
