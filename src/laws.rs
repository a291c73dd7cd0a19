//! Properties that relate several functions of the library, proved over the
//! spec functions their contracts use.
use vstd::prelude::*;
use crate::capabilities::ServerCapabilities;
use crate::json::{Json, member, json_parse_of};
use crate::message::Message;
use crate::openai_format::{
    member_of, reads_reply, reads_tool_call, reply_of, text_items, text_or_empty, tool_calls_of,
    is_valid_name, usage_of,
};
use crate::router::initialize_result_is;
use crate::provider::after_fallback;
use crate::message::has_tool_request;
use crate::usage::{ModelPricing, Usage, cost_of, price_of};

verus! {

/// The capabilities that `initialize` advertises are exactly those enabled:
/// one that was not enabled never appears, and one that was appears.
pub proof fn lemma_initialize_advertises_only_enabled(v: Json, caps: ServerCapabilities)
    requires
        initialize_result_is(v, caps),
    ensures
        member(member(v, "capabilities"@).unwrap(), "tools"@) is Some <==> caps.tools is Some,
        member(member(v, "capabilities"@).unwrap(), "prompts"@) is Some <==> caps.prompts is Some,
        member(member(v, "capabilities"@).unwrap(), "resources"@) is Some <==> caps.resources is Some,
{
}

/// Reading a reply whose first choice has no structured tool call gives a
/// message of text alone.
pub proof fn lemma_reply_without_tool_calls_is_text(response: Json, m: Message)
    requires
        reads_reply(m, response),
        tool_calls_of(reply_of(response)).len() == 0,
    ensures
        forall|i: int| 0 <= i < m.content@.len() ==> (#[trigger] m.content@[i]) is Text,
{
}

/// Reading a reply whose structured tool call has a valid name and JSON
/// arguments gives a tool request with exactly that name and those arguments.
pub proof fn lemma_reply_tool_call_is_exact(response: Json, m: Message, j: int, args: Json)
    requires
        reads_reply(m, response),
        0 <= j < tool_calls_of(reply_of(response)).len(),
        is_valid_name(
            text_or_empty(member_of(member(tool_calls_of(reply_of(response))[j], "function"@), "name"@)),
        ),
        json_parse_of(
            text_or_empty(
                member_of(member(tool_calls_of(reply_of(response))[j], "function"@), "arguments"@),
            ),
        ) == Some(args),
    ensures
        ({
            let c = m.content@[text_items(reply_of(response)) + j];
            &&& c is ToolRequest
            &&& c->ToolRequest_tool_call is Ok
            &&& c->ToolRequest_tool_call->Ok_0.name@ == text_or_empty(
                member_of(member(tool_calls_of(reply_of(response))[j], "function"@), "name"@),
            )
            &&& c->ToolRequest_tool_call->Ok_0.arguments == args
        }),
{
    assert(reads_tool_call(
        m.content@[text_items(reply_of(response)) + j],
        tool_calls_of(reply_of(response))[j],
    ));
}

/// The cost of a usage on a listed model is the exact sum of each count times
/// its price; on a model the table does not list it is unknown, not zero.
pub proof fn lemma_cost_is_exact_sum(model: Seq<char>, usage: Usage)
    requires
        usage.input_tokens is Some,
        usage.output_tokens is Some,
    ensures
        price_of(model) is None ==> cost_of(usage, price_of(model)) is None,
        price_of(model) is Some ==> cost_of(usage, price_of(model)) == Some(
            usage.input_tokens.unwrap() * price_of(model).unwrap().input_nanodollars
                + usage.output_tokens.unwrap() * price_of(model).unwrap().output_nanodollars,
        ),
{
}

/// A usage object with no count gives a usage with every count unknown, and
/// no cost at any price.
pub proof fn lemma_absent_counts_give_no_cost(response: Json, pricing: Option<ModelPricing>)
    requires
        member(response, "usage"@) is Some,
        member(member(response, "usage"@).unwrap(), "prompt_tokens"@) is None,
        member(member(response, "usage"@).unwrap(), "completion_tokens"@) is None,
        member(member(response, "usage"@).unwrap(), "total_tokens"@) is None,
    ensures
        usage_of(response) == Some(Usage { input_tokens: None, output_tokens: None, total_tokens: None }),
        cost_of(usage_of(response).unwrap(), pricing) is None,
{
}

/// On an OpenRouter reply, a structured tool call with a valid name and JSON
/// arguments is kept as it was read: the markup fallback leaves the message
/// alone, and the request carries exactly that name and those arguments.
pub proof fn lemma_openrouter_keeps_structured_call(
    response: Json,
    parsed: Message,
    m: Message,
    j: int,
    args: Json,
)
    requires
        reads_reply(parsed, response),
        after_fallback(parsed, m),
        0 <= j < tool_calls_of(reply_of(response)).len(),
        is_valid_name(
            text_or_empty(member_of(member(tool_calls_of(reply_of(response))[j], "function"@), "name"@)),
        ),
        json_parse_of(
            text_or_empty(
                member_of(member(tool_calls_of(reply_of(response))[j], "function"@), "arguments"@),
            ),
        ) == Some(args),
    ensures
        m == parsed,
        ({
            let c = m.content@[text_items(reply_of(response)) + j];
            &&& c is ToolRequest
            &&& c->ToolRequest_tool_call is Ok
            &&& c->ToolRequest_tool_call->Ok_0.name@ == text_or_empty(
                member_of(member(tool_calls_of(reply_of(response))[j], "function"@), "name"@),
            )
            &&& c->ToolRequest_tool_call->Ok_0.arguments == args
        }),
{
    lemma_reply_tool_call_is_exact(response, parsed, j, args);
    let idx = text_items(reply_of(response)) + j;
    assert(parsed.content@[idx] is ToolRequest);
    assert(has_tool_request(parsed.content@));
}
} // verus!
