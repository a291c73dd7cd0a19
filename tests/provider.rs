use agent_core::json::Json;
use agent_core::markup::extract_markup_call;
use agent_core::message::{Message, MessageContent, Tool};
use agent_core::openai_format::{create_request, get_usage, ModelConfig, ProviderError};
use agent_core::provider::{
    apply_markup_fallback, create_request_based_on_model, endpoint_url, openai_handle_response,
    openrouter_handle_response, usage_or_unknown,
};
use agent_core::usage::{cost, model_pricing_for, Usage};

fn parse(text: &str) -> Json {
    Json::parse(text).expect("test JSON must parse")
}

fn mock_response(content: &str, model: &str) -> Json {
    let text = format!(
        r#"{{"id":"chatcmpl-123","object":"chat.completion","created":1677652288,"model":"{}",
        "choices":[{{"index":0,"message":{{"role":"assistant","content":"{}"}},"finish_reason":"stop"}}],
        "usage":{{"prompt_tokens":12,"completion_tokens":15,"total_tokens":27}}}}"#,
        model, content
    );
    parse(&text)
}

fn mock_response_with_tools(model: &str) -> Json {
    let text = format!(
        r#"{{"id":"chatcmpl-123","object":"chat.completion","created":1677652288,"model":"{}",
        "choices":[{{"index":0,"message":{{"role":"assistant","content":null,
        "tool_calls":[{{"id":"call_123","type":"function","function":{{"name":"get_weather",
        "arguments":"{{\"location\":\"San Francisco, CA\"}}"}}}}]}},"finish_reason":"tool_calls"}}],
        "usage":{{"prompt_tokens":12,"completion_tokens":15,"total_tokens":27}}}}"#,
        model
    );
    parse(&text)
}

fn weather_tool() -> Tool {
    Tool::new(
        "get_weather".to_string(),
        "Gets the current weather for a location".to_string(),
        parse(r#"{"type":"object","properties":{"location":{"type":"string"}},"required":["location"]}"#),
    )
}

#[test]
fn test_complete_basic() {
    let model_name = "gpt-4o";
    let response_body = mock_response("Hello! How can I assist you today?", model_name);
    let messages = vec![Message::user().with_text("Hello?")];
    let config = ModelConfig::new("gpt-3.5-turbo".to_string()).with_temperature(Some("0.7".to_string()));
    let payload = create_request(&config, "You are a helpful assistant.", &messages, vec![]);
    assert!(payload.is_ok());

    let (message, usage) = openai_handle_response(&response_body).expect("reply must be read");
    if let MessageContent::Text(text) = &message.content[0] {
        assert_eq!(text, "Hello! How can I assist you today?");
    } else {
        panic!("Expected Text content");
    }
    assert_eq!(usage.usage.input_tokens, Some(12));
    assert_eq!(usage.usage.output_tokens, Some(15));
    assert_eq!(usage.usage.total_tokens, Some(27));
    assert_eq!(usage.model, model_name);
    assert_eq!(usage.cost.map(|c| c.nanodollars), Some(180_000));
}

#[test]
fn test_complete_tool_request() {
    let response_body = mock_response_with_tools("gpt-4o");
    let messages = vec![Message::user().with_text("What's the weather in San Francisco?")];
    let config = ModelConfig::new("gpt-4o".to_string());
    let payload = create_request(&config, "You are a helpful assistant.", &messages, vec![weather_tool()]);
    assert!(payload.is_ok());

    let (message, usage) = openai_handle_response(&response_body).expect("reply must be read");
    if let MessageContent::ToolRequest { tool_call, .. } = &message.content[0] {
        let tool_call = tool_call.as_ref().unwrap();
        assert_eq!(tool_call.name, "get_weather");
        assert_eq!(tool_call.arguments.to_text(), r#"{"location":"San Francisco, CA"}"#);
    } else {
        panic!("Expected ToolCall content");
    }
    assert_eq!(usage.usage.input_tokens, Some(12));
    assert_eq!(usage.usage.output_tokens, Some(15));
    assert_eq!(usage.usage.total_tokens, Some(27));
}

#[test]
fn request_carries_model_messages_and_tools() {
    let messages = vec![Message::user().with_text("Hi")];
    let config = ModelConfig::new("gpt-4o".to_string());
    let payload = create_request(&config, "sys", &messages, vec![weather_tool()]).unwrap();
    let msgs = payload.get("messages").unwrap();
    match msgs {
        Json::Array(items) => {
            assert_eq!(items.len(), 2);
            assert_eq!(items[0].get("role").unwrap().as_str(), Some("system"));
            assert_eq!(items[0].get("content").unwrap().as_str(), Some("sys"));
            assert_eq!(items[1].get("role").unwrap().as_str(), Some("user"));
            assert_eq!(items[1].get("content").unwrap().as_str(), Some("Hi"));
        }
        _ => panic!("messages must be an array"),
    }
    assert_eq!(payload.get("model").unwrap().as_str(), Some("gpt-4o"));
    match payload.get("tools").unwrap() {
        Json::Array(tools) => {
            assert_eq!(tools.len(), 1);
            let f = tools[0].get("function").unwrap();
            assert_eq!(f.get("name").unwrap().as_str(), Some("get_weather"));
        }
        _ => panic!("tools must be an array"),
    }
    assert!(payload.get("temperature").is_none());
}

#[test]
fn request_without_tools_has_no_tools_member() {
    let config = ModelConfig::new("gpt-4o".to_string());
    let payload = create_request(&config, "sys", &[], vec![]).unwrap();
    assert!(payload.get("tools").is_none());
}

#[test]
fn duplicate_tool_names_are_refused() {
    let config = ModelConfig::new("gpt-4o".to_string());
    let r = create_request(&config, "sys", &[], vec![weather_tool(), weather_tool()]);
    match r {
        Err(ProviderError::RequestError(m)) => assert_eq!(m, "Duplicate tool name: get_weather"),
        _ => panic!("expected a request error"),
    }
}

#[test]
fn deepseek_payload_drops_tools() {
    let config = ModelConfig::new("deepseek/deepseek-r1".to_string());
    let payload = create_request_based_on_model(&config, "sys", &[], vec![weather_tool()]).unwrap();
    assert!(payload.get("tools").is_none());
    assert!(payload.get("model").is_some());
    let other = ModelConfig::new("anthropic/sonnet".to_string());
    let payload = create_request_based_on_model(&other, "sys", &[], vec![weather_tool()]).unwrap();
    assert!(payload.get("tools").is_some());
}

#[test]
fn tool_call_round_trip_through_payload_and_reply() {
    let reply = mock_response_with_tools("gpt-4o");
    let (message, _) = openai_handle_response(&reply).unwrap();
    assert_eq!(message.content.len(), 1);
    let reply_text = mock_response("plain answer", "gpt-4o");
    let (message, _) = openai_handle_response(&reply_text).unwrap();
    assert!(message.content.iter().all(|c| matches!(c, MessageContent::Text(_))));
    assert!(!message.is_tool_call());
}

#[test]
fn invalid_function_name_is_not_found_error() {
    let reply = parse(
        r#"{"choices":[{"message":{"tool_calls":[{"id":"x","function":{"name":"bad name!","arguments":"{}"}}]}}],"usage":{}}"#,
    );
    let (message, _) = openai_handle_response(&reply).unwrap();
    match &message.content[0] {
        MessageContent::ToolRequest { id, tool_call: Err(_) } => assert_eq!(id, "x"),
        _ => panic!("expected a failed tool request"),
    }
}

#[test]
fn unparsable_arguments_are_invalid_parameters() {
    let reply = parse(
        r#"{"choices":[{"message":{"tool_calls":[{"id":"x","function":{"name":"ok","arguments":"{not json"}}]}}],"usage":{}}"#,
    );
    let (message, _) = openai_handle_response(&reply).unwrap();
    assert!(matches!(
        &message.content[0],
        MessageContent::ToolRequest { tool_call: Err(agent_core::message::ToolError::InvalidParameters(_)), .. }
    ));
}

#[test]
fn markup_call_is_extracted() {
    let text = r#"<function_calls><invoke name="lookup"><parameter name="q">weather</parameter></invoke></function_calls>"#;
    let (name, args) = extract_markup_call(text).expect("a call must be found");
    assert_eq!(name, "lookup");
    assert_eq!(args.to_text(), r#"{"q":"weather"}"#);
}

#[test]
fn markup_fallback_replaces_text_with_request() {
    let text = r#"Let me check. <function_calls><invoke name="lookup"><parameter name="q">weather</parameter><parameter name="n">3</parameter></invoke></function_calls>"#;
    let m = apply_markup_fallback(Message::assistant().with_text(text));
    assert_eq!(m.content.len(), 1);
    match &m.content[0] {
        MessageContent::ToolRequest { id, tool_call: Ok(call) } => {
            assert_eq!(id, "1");
            assert_eq!(call.name, "lookup");
            assert_eq!(call.arguments.get("q").unwrap().as_str(), Some("weather"));
            assert_eq!(call.arguments.get("n").unwrap().as_str(), Some("3"));
        }
        _ => panic!("expected a tool request"),
    }
}

#[test]
fn unterminated_markup_leaves_text() {
    let text = r#"<function_calls><invoke name="lookup"><parameter name="q">weather</parameter>"#;
    assert!(extract_markup_call(text).is_none());
    let m = apply_markup_fallback(Message::assistant().with_text(text));
    assert_eq!(m.content.len(), 1);
    match &m.content[0] {
        MessageContent::Text(t) => assert_eq!(t, text),
        _ => panic!("text must be kept"),
    }
}

#[test]
fn markup_duplicate_parameter_keeps_last_value() {
    let text = r#"<function_calls><invoke name="f"><parameter name="a">1</parameter><parameter name="a">2</parameter></invoke></function_calls>"#;
    let (_, args) = extract_markup_call(text).unwrap();
    assert_eq!(args.to_text(), r#"{"a":"2"}"#);
}

#[test]
fn openrouter_reply_with_markup_and_no_usage() {
    let reply = parse(
        r#"{"model":"anthropic/sonnet","choices":[{"message":{"role":"assistant","content":"<function_calls><invoke name=\"lookup\"><parameter name=\"q\">weather</parameter></invoke></function_calls>"}}]}"#,
    );
    let (message, usage) = openrouter_handle_response(&reply).unwrap();
    assert!(message.is_tool_call());
    assert_eq!(usage.usage, Usage::default());
    assert!(usage.cost.is_none());
    assert_eq!(usage.model, "anthropic/sonnet");
}

#[test]
fn context_length_error_is_distinguished() {
    let reply = parse(r#"{"error":{"code":"context_length_exceeded","message":"too long"}}"#);
    match openai_handle_response(&reply) {
        Err(ProviderError::ContextLengthExceeded(m)) => assert_eq!(m, "too long"),
        _ => panic!("expected a context length error"),
    }
    let other = parse(r#"{"error":{"code":"other","message":"nope"}}"#);
    match openai_handle_response(&other) {
        Err(ProviderError::ApiError(m)) => {
            assert_eq!(m, r#"OpenAI API error: {"code":"other","message":"nope"}"#)
        }
        _ => panic!("expected a backend error"),
    }
    match openrouter_handle_response(&reply) {
        Err(ProviderError::ContextLengthExceeded(m)) => assert_eq!(m, "too long"),
        _ => panic!("expected a context length error"),
    }
}

#[test]
fn missing_usage_degrades_to_unknown_usage() {
    let reply = parse(r#"{"choices":[{"message":{"content":"hi"}}],"model":"gpt-4o"}"#);
    assert!(matches!(get_usage(&reply), Err(ProviderError::UsageError(_))));
    let (usage, missing) = usage_or_unknown(&reply);
    assert!(missing);
    assert_eq!(usage, Usage::default());
    let (_, provider_usage) = openai_handle_response(&reply).unwrap();
    assert_eq!(provider_usage.usage, Usage::default());
    assert!(provider_usage.cost.is_none());
}

#[test]
fn absent_counts_give_absent_usage_and_no_cost() {
    let reply = parse(r#"{"usage":{}}"#);
    let usage = get_usage(&reply).unwrap();
    assert_eq!(usage, Usage::new(None, None, None));
    assert!(cost(&usage, &model_pricing_for("gpt-4o")).is_none());
}

#[test]
fn cost_of_known_and_unknown_models() {
    let usage = Usage::new(Some(1000), Some(500), Some(1500));
    let c = cost(&usage, &model_pricing_for("gpt-4o")).unwrap();
    assert_eq!(c.nanodollars, 7_500_000);
    assert!(cost(&usage, &model_pricing_for("some-unlisted-model")).is_none());
}

#[test]
fn endpoint_url_trims_trailing_slashes() {
    assert_eq!(endpoint_url("https://api.openai.com//", "/v1/chat/completions"), "https://api.openai.com/v1/chat/completions");
    assert_eq!(endpoint_url("http://h", "/x"), "http://h/x");
}

#[test]
fn temperature_must_be_a_number() {
    let config = ModelConfig::new("gpt-4o".to_string()).with_temperature(Some("warm".to_string()));
    assert!(matches!(create_request(&config, "sys", &[], vec![]), Err(ProviderError::RequestError(_))));
    let config = ModelConfig::new("gpt-4o".to_string()).with_temperature(Some("0.7".to_string()));
    let payload = create_request(&config, "sys", &[], vec![]).unwrap();
    assert!(matches!(payload.get("temperature"), Some(Json::Decimal(t)) if t == "0.7"));
}

#[test]
fn status_codes_401_and_403_are_authentication_failures() {
    assert!(matches!(agent_core::provider::status_error(401), Some(ProviderError::Authentication(_))));
    assert!(matches!(agent_core::provider::status_error(403), Some(ProviderError::Authentication(_))));
    assert!(agent_core::provider::status_error(200).is_none());
    assert!(agent_core::provider::status_error(500).is_none());
}

#[test]
fn repeated_key_prints_the_first_entry() {
    let v = Json::Object(vec![("a".to_string(), Json::Int(1)), ("a".to_string(), Json::Int(2))]);
    assert!(matches!(v.get("a"), Some(Json::Int(1))));
    assert_eq!(v.to_text(), r#"{"a":1}"#);
}
