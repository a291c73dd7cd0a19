//! The provider façade's decisions: the endpoint, the request payload for a
//! model, and the reading of a backend's reply into a message and its usage.
//! Sending the request is left to the caller.
use vstd::prelude::*;
use vstd::string::StringExecFns;
use crate::json::{
    Json, lookup, member, text_of, json_text_of, lemma_lookup_push, lemma_no_key_no_lookup,
    same_text,
};
use crate::markup::{extract_markup_call, holds_pairs, markup_call, chars_of, find, find_from};
use crate::message::{Message, MessageContent, Tool, ToolCall, has_tool_request};
use crate::openai_format::{
    ModelConfig, ProviderError, check_context_length_error, create_request, get_model, get_usage,
    is_context_length_code, is_request, names_distinct, request_made, temperature_ok, reads_reply, response_to_message, usage_of,
};
use crate::usage::{ProviderUsage, Usage, cost_of, price_of};

verus! {

/// `s` without its trailing slashes.
pub open spec fn trim_trailing_slashes(s: Seq<char>) -> Seq<char>
    decreases s.len(),
{
    if s.len() > 0 && s.last() == '/' {
        trim_trailing_slashes(s.drop_last())
    } else {
        s
    }
}

/// The address of an endpoint: the host without trailing slashes, then `path`.
pub fn endpoint_url(host: &str, path: &str) -> (r: String)
    ensures
        r@ == trim_trailing_slashes(host@) + path@,
{
    let mut end = host.unicode_len();
    assert(host@.subrange(0, end as int) =~= host@);
    while end > 0 && host.get_char(end - 1) == '/'
        invariant
            end <= host@.len(),
            trim_trailing_slashes(host@) == trim_trailing_slashes(host@.subrange(0, end as int)),
        decreases end,
    {
        assert(host@.subrange(0, end as int).drop_last() =~= host@.subrange(0, end - 1));
        end = end - 1;
    }
    host.substring_char(0, end).to_owned().concat(path)
}

/// The model identifier part of DeepSeek reasoning models, which take no tools.
pub const OPENROUTER_MODEL_PREFIX_DEEPSEEK: &'static str = "deepseek-r1";
/// The model OpenAI uses unless told otherwise.
pub const OPEN_AI_DEFAULT_MODEL: &'static str = "gpt-4o";

/// `v` without its member `key`; the other members are kept.
pub fn remove_member(v: Json, key: &str) -> (r: Json)
    ensures
        member(r, key@) is None,
        forall|k: Seq<char>| k != key@ ==> #[trigger] member(r, k) == member(v, k),
        v is Object ==> r is Object,
        !(v is Object) ==> r == v,
{
    match v {
        Json::Object(entries) => {
            let ghost all = entries@;
            assert(all.len() <= usize::MAX) by { assert(entries@.len() == entries.len()); }
            let mut rest = entries;
            let mut out: Vec<(String, Json)> = Vec::new();
            let mut i: usize = 0;
            assert(all.subrange(0, 0) =~= Seq::<(String, Json)>::empty());
            while rest.len() > 0
                invariant
                    all.len() <= usize::MAX,
                    i + rest@.len() == all.len(),
                    rest@ == all.subrange(i as int, all.len() as int),
                    forall|j: int| 0 <= j < out@.len() ==> out@[j].0@ != key@,
                    forall|k: Seq<char>|
                        k != key@ ==> #[trigger] lookup(out@, k) == lookup(
                            all.subrange(0, i as int),
                            k,
                        ),
                decreases rest@.len(),
            {
                let e = rest.remove(0);
                assert(e == all[i as int]);
                let ghost before = out@;
                proof {
                    assert(all.subrange(0, i + 1) =~= all.subrange(0, i as int).push(e));
                }
                if !same_text(e.0.as_str(), key) {
                    out.push(e);
                    proof {
                        assert forall|k: Seq<char>| k != key@ implies #[trigger] lookup(out@, k)
                            == lookup(all.subrange(0, i + 1), k) by {
                            lemma_lookup_push(before, e, k);
                            lemma_lookup_push(all.subrange(0, i as int), e, k);
                        }
                    }
                } else {
                    proof {
                        assert forall|k: Seq<char>| k != key@ implies #[trigger] lookup(out@, k)
                            == lookup(all.subrange(0, i + 1), k) by {
                            lemma_lookup_push(all.subrange(0, i as int), e, k);
                        }
                    }
                }
                i = i + 1;
                assert(rest@ =~= all.subrange(i as int, all.len() as int));
            }
            proof {
                lemma_no_key_no_lookup(out@, key@);
                assert(all.subrange(0, all.len() as int) =~= all);
            }
            Json::Object(out)
        },
        other => other,
    }
}

/// Whether `pat` occurs anywhere in `s`.
pub open spec fn contains(s: Seq<char>, pat: Seq<char>) -> bool {
    find_from(s, pat, 0) is Some
}

/// `q` is the payload `p` without its `tools` and `tool_choice` members; its
/// other members are those of `p`.
pub open spec fn without_tool_members(q: Json, p: Json) -> bool {
    &&& q is Object
    &&& member(q, "tools"@) is None
    &&& member(q, "tool_choice"@) is None
    &&& forall|k: Seq<char>|
        k != "tools"@ && k != "tool_choice"@ ==> #[trigger] member(q, k) == member(p, k)
}

/// The request payload for an OpenRouter model: the payload that
/// `create_request` makes, except that DeepSeek reasoning models, which take
/// no tools, get it without tools and without a tool choice. An error of
/// `create_request` passes through.
pub fn create_request_based_on_model(
    config: &ModelConfig,
    system: &str,
    messages: &[Message],
    tools: Vec<Tool>,
) -> (r: Result<Json, ProviderError>)
    ensures
        !contains(config.model_name@, OPENROUTER_MODEL_PREFIX_DEEPSEEK@) ==> request_made(
            *config,
            system@,
            messages@,
            tools@,
            r,
        ),
        contains(config.model_name@, OPENROUTER_MODEL_PREFIX_DEEPSEEK@) ==> (r is Ok <==> (
        names_distinct(tools@) && temperature_ok(*config))),
        contains(config.model_name@, OPENROUTER_MODEL_PREFIX_DEEPSEEK@) && r is Err ==> request_made(
            *config,
            system@,
            messages@,
            tools@,
            r,
        ),
        contains(config.model_name@, OPENROUTER_MODEL_PREFIX_DEEPSEEK@) && r is Ok ==> exists|p: Json|
            request_made(*config, system@, messages@, tools@, Ok(p)) && #[trigger] without_tool_members(
                r->Ok_0,
                p,
            ),
{
    let ghost ts = tools@;
    let payload = match create_request(config, system, messages, tools) {
        Ok(p) => p,
        Err(e) => {
            return Err(e);
        },
    };
    let model = chars_of(config.model_name.as_str());
    let deepseek = chars_of(OPENROUTER_MODEL_PREFIX_DEEPSEEK);
    if find(&model, &deepseek, 0).is_some() {
        let ghost p = payload;
        let without_tools = remove_member(payload, "tools");
        let q = remove_member(without_tools, "tool_choice");
        proof {
            reveal_strlit("tools");
            reveal_strlit("tool_choice");
            assert("tools"@.len() != "tool_choice"@.len());
            assert(without_tool_members(q, p));
            assert(request_made(*config, system@, messages@, ts, Ok::<Json, ProviderError>(p)));
        }
        let r: Result<Json, ProviderError> = Ok(q);
        assert(without_tool_members(r->Ok_0, p));
        r
    } else {
        Ok(payload)
    }
}

/// The fallback applies to `m`: it holds no structured tool request, and its
/// first item is text in which a tool call is written as markup.
pub open spec fn fallback_applies(m: Message) -> bool {
    &&& !has_tool_request(m.content@)
    &&& m.content@.len() > 0
    &&& m.content@[0] is Text
    &&& markup_call(m.content@[0]->Text_0@) is Some
}

/// `r` is `m` after the fallback: where it applies, a single tool request
/// with identifier `1` for the call written as markup; otherwise `m` itself.
pub open spec fn after_fallback(m: Message, r: Message) -> bool {
    &&& r.role == m.role
    &&& !fallback_applies(m) ==> r == m
    &&& fallback_applies(m) ==> ({
        let c = markup_call(m.content@[0]->Text_0@).unwrap();
        &&& r.content@.len() == 1
        &&& r.content@[0] is ToolRequest
        &&& r.content@[0]->ToolRequest_id@ == "1"@
        &&& r.content@[0]->ToolRequest_tool_call is Ok
        &&& r.content@[0]->ToolRequest_tool_call->Ok_0.name@ == c.0
        &&& holds_pairs(r.content@[0]->ToolRequest_tool_call->Ok_0.arguments, c.1)
    })
}

/// Replaces the content of `m` with the tool call written as markup in its
/// text, where the fallback applies; otherwise `m` is left as it is.
pub fn apply_markup_fallback(m: Message) -> (r: Message)
    ensures
        after_fallback(m, r),
{
    if m.is_tool_call() || m.content.len() == 0 {
        return m;
    }
    let found = match &m.content[0] {
        MessageContent::Text(t) => extract_markup_call(t.as_str()),
        _ => None,
    };
    match found {
        Some((name, arguments)) => {
            let request = MessageContent::ToolRequest {
                id: "1".to_owned(),
                tool_call: Ok(ToolCall { name, arguments }),
            };
            Message { role: m.role, content: vec![request] }
        },
        None => m,
    }
}

/// `r` is the error that the error object `error` reports: a context-length
/// error, with its message or `Unknown error`, where its code says so; else
/// a backend error whose message is `prefix` and the object's JSON text.
pub open spec fn reports_error(r: ProviderError, error: Json, prefix: Seq<char>) -> bool {
    let context = match text_of(member(error, "code"@)) {
        Some(code) => is_context_length_code(code),
        None => false,
    };
    if context {
        r is ContextLengthExceeded && r->ContextLengthExceeded_0@ == (match text_of(
            member(error, "message"@),
        ) {
            Some(m) => m,
            None => "Unknown error"@,
        })
    } else {
        r is ApiError && r->ApiError_0@ == prefix + json_text_of(error)
    }
}

/// The error a reply's `error` member reports.
pub fn backend_error(prefix: &str, error: &Json) -> (r: ProviderError)
    ensures
        reports_error(r, *error, prefix@),
{
    match check_context_length_error(error) {
        Some(e) => e,
        None => ProviderError::ApiError(prefix.to_owned().concat(error.to_text().as_str())),
    }
}

/// What an HTTP status says of a call before its body is read: 401 and 403
/// are authentication failures; any other status leaves the body to decide.
pub fn status_error(status: u16) -> (r: Option<ProviderError>)
    ensures
        (status == 401 || status == 403) <==> r is Some,
        r is Some ==> r->Some_0 is Authentication,
{
    if status == 401 || status == 403 {
        Some(ProviderError::Authentication("Authentication failed: the backend refused the credentials".to_owned()))
    } else {
        None
    }
}

/// The usage a reply reports, or every count unknown where it has none; the
/// flag says that it had none, which callers report as a warning.
pub fn usage_or_unknown(response: &Json) -> (r: (Usage, bool))
    ensures
        r.1 == usage_of(*response) is None,
        r.0 == match usage_of(*response) {
            Some(x) => x,
            None => Usage { input_tokens: None, output_tokens: None, total_tokens: None },
        },
{
    match get_usage(response) {
        Ok(u) => (u, false),
        Err(_) => (Usage::default(), true),
    }
}

/// The usage of a reply once read: its counts, or every count unknown where
/// the reply has none, the model it names, and the cost where it is known.
pub open spec fn reply_usage_is(u: ProviderUsage, response: Json) -> bool {
    &&& u.usage == match usage_of(response) {
        Some(x) => x,
        None => Usage { input_tokens: None, output_tokens: None, total_tokens: None },
    }
    &&& u.model@ == text_of(member(response, "model"@)).unwrap_or("Unknown"@)
    &&& match cost_of(u.usage, price_of(u.model@)) {
        Some(c) => u.cost is Some && u.cost.unwrap().nanodollars == c,
        None => u.cost is None,
    }
}

/// Reads an OpenAI reply: a reported error fails the call; otherwise the
/// message, the model and the usage, priced.
pub fn openai_handle_response(response: &Json) -> (r: Result<(Message, ProviderUsage), ProviderError>)
    ensures
        member(*response, "error"@) is Some <==> r is Err,
        r is Err ==> reports_error(r->Err_0, member(*response, "error"@).unwrap(), "OpenAI API error: "@),
        r is Ok ==> reads_reply(r->Ok_0.0, *response) && reply_usage_is(r->Ok_0.1, *response),
{
    if let Some(error) = response.get("error") {
        return Err(backend_error("OpenAI API error: ", error));
    }
    let message = response_to_message(response);
    let (usage, _) = usage_or_unknown(response);
    let model = get_model(response);
    Ok((message, ProviderUsage::new(model, usage)))
}

/// Reads an OpenRouter reply: as an OpenAI reply, with the markup fallback
/// for tool calls, and with unknown usage where the reply has none.
pub fn openrouter_handle_response(response: &Json) -> (r: Result<
    (Message, ProviderUsage),
    ProviderError,
>)
    ensures
        member(*response, "error"@) is Some <==> r is Err,
        r is Err ==> reports_error(
            r->Err_0,
            member(*response, "error"@).unwrap(),
            "OpenRouter API error: "@,
        ),
        r is Ok ==> (exists|parsed: Message|
            reads_reply(parsed, *response) && after_fallback(parsed, #[trigger] r->Ok_0.0))
            && reply_usage_is(r->Ok_0.1, *response),
{
    if let Some(error) = response.get("error") {
        return Err(backend_error("OpenRouter API error: ", error));
    }
    let parsed = response_to_message(response);
    let message = apply_markup_fallback(parsed);
    let (usage, _) = usage_or_unknown(response);
    let model = get_model(response);
    Ok((message, ProviderUsage::new(model, usage)))
}

} // verus!
