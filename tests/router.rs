use agent_core::capabilities::{CapabilitiesBuilder, ServerCapabilities};
use agent_core::json::Json;
use agent_core::message::Tool;
use agent_core::prompt::{PromptMessage, PromptMessageContent, PromptMessageRole, Prompt, PromptError};
use agent_core::router::{
    complete_tool_call, Dispatch, JsonRpcRequest, Router, RouterService, INVALID_PARAMS,
    METHOD_NOT_FOUND,
};

struct Demo;

impl Router for Demo {
    fn capabilities(&self) -> ServerCapabilities {
        CapabilitiesBuilder::new().with_tools(true).build()
    }

    fn list_tools(&self) -> Vec<Tool> {
        vec![Tool::new("echo".to_string(), "Echoes".to_string(), Json::parse(r#"{"type":"object"}"#).unwrap())]
    }
}

fn request(id: u64, method: &str, params: Option<&str>) -> JsonRpcRequest {
    JsonRpcRequest {
        jsonrpc: "2.0".to_string(),
        id: Some(id),
        method: method.to_string(),
        params: params.map(|p| Json::parse(p).unwrap()),
    }
}

fn respond(d: Dispatch) -> agent_core::router::JsonRpcResponse {
    match d {
        Dispatch::Respond(r) => r,
        Dispatch::CallTool { .. } => panic!("expected an immediate response"),
    }
}

#[test]
fn initialize_advertises_only_tools() {
    let svc = RouterService(Demo);
    let r = respond(svc.dispatch(request(1, "initialize", None)));
    assert_eq!(r.id, Some(1));
    assert!(r.error.is_none());
    let result = r.result.unwrap();
    assert_eq!(result.get("protocolVersion").unwrap().as_str(), Some("2024-11-05"));
    let caps = result.get("capabilities").unwrap();
    assert!(caps.get("prompts").is_none());
    assert!(caps.get("resources").is_none());
    assert!(matches!(caps.get("tools").unwrap().get("listChanged"), Some(Json::Bool(true))));
}

#[test]
fn builder_records_exactly_what_was_enabled() {
    let caps = CapabilitiesBuilder::new().with_resources(true, false).build();
    assert!(caps.tools.is_none());
    assert!(caps.prompts.is_none());
    let res = caps.resources.unwrap();
    assert_eq!(res.subscribe, Some(true));
    assert_eq!(res.list_changed, Some(false));
    let all = CapabilitiesBuilder::new().with_tools(false).with_prompts(true).build();
    assert_eq!(all.prompts.unwrap().list_changed, Some(true));
    assert_eq!(all.tools.unwrap().list_changed, Some(false));
}

#[test]
fn tools_list_returns_every_tool() {
    let svc = RouterService(Demo);
    let r = respond(svc.dispatch(request(2, "tools/list", None)));
    assert_eq!(r.id, Some(2));
    match r.result.unwrap().get("tools").unwrap() {
        Json::Array(items) => {
            assert_eq!(items.len(), 1);
            assert_eq!(items[0].get("name").unwrap().as_str(), Some("echo"));
            assert!(items[0].get("inputSchema").is_some());
        }
        _ => panic!("tools must be an array"),
    }
}

#[test]
fn tools_call_without_arguments_dispatches_null() {
    let svc = RouterService(Demo);
    match svc.dispatch(request(3, "tools/call", Some(r#"{"name":"x"}"#))) {
        Dispatch::CallTool { id, call } => {
            assert_eq!(id, Some(3));
            assert_eq!(call.name, "x");
            assert!(matches!(call.arguments, Json::Null));
        }
        Dispatch::Respond(_) => panic!("expected a tool call"),
    }
}

#[test]
fn tools_call_passes_arguments() {
    let svc = RouterService(Demo);
    match svc.dispatch(request(4, "tools/call", Some(r#"{"name":"x","arguments":{"a":1}}"#))) {
        Dispatch::CallTool { call, .. } => assert_eq!(call.arguments.to_text(), r#"{"a":1}"#),
        Dispatch::Respond(_) => panic!("expected a tool call"),
    }
}

#[test]
fn tools_call_without_name_is_invalid_params() {
    let svc = RouterService(Demo);
    let r = respond(svc.dispatch(request(5, "tools/call", Some(r#"{"arguments":{}}"#))));
    assert_eq!(r.id, Some(5));
    assert!(r.result.is_none());
    assert_eq!(r.error.unwrap().code, INVALID_PARAMS);
    let r = respond(svc.dispatch(request(6, "tools/call", None)));
    assert_eq!(r.error.unwrap().code, INVALID_PARAMS);
    let r = respond(svc.dispatch(request(7, "tools/call", Some(r#"{"name":5}"#))));
    assert_eq!(r.error.unwrap().code, INVALID_PARAMS);
}

#[test]
fn unknown_method_is_method_not_found() {
    let svc = RouterService(Demo);
    let r = respond(svc.dispatch(request(8, "foo/bar", None)));
    assert_eq!(r.id, Some(8));
    assert!(r.result.is_none());
    let e = r.error.unwrap();
    assert_eq!(e.code, METHOD_NOT_FOUND);
    assert_eq!(e.message, "Method not found: foo/bar");
}

#[test]
fn tool_failure_is_a_successful_response() {
    let r = complete_tool_call(Some(9), Err("boom".to_string()));
    assert_eq!(r.id, Some(9));
    assert!(r.error.is_none());
    let result = r.result.unwrap();
    assert!(matches!(result.get("isError"), Some(Json::Bool(true))));
    let ok = complete_tool_call(None, Ok(Json::parse(r#"{"v":2}"#).unwrap()));
    let result = ok.result.unwrap();
    assert!(matches!(result.get("isError"), Some(Json::Bool(false))));
    match result.get("content").unwrap() {
        Json::Array(items) => assert_eq!(items[0].get("text").unwrap().as_str(), Some(r#"{"v":2}"#)),
        _ => panic!("content must be an array"),
    }
}

#[test]
fn prompt_constructors_keep_their_inputs() {
    let p = Prompt::new("greet", "Says hello", vec![]);
    assert_eq!(p.name, "greet");
    let m = PromptMessage::new_text(PromptMessageRole::User, "hi");
    assert!(matches!(m.content, PromptMessageContent::Text { ref text } if text == "hi"));
    let img = PromptMessage::new_image(PromptMessageRole::Assistant, "aGVsbG8=", "image/png");
    assert!(img.is_ok());
    let bad = PromptMessage::new_image(PromptMessageRole::Assistant, "not base64!", "image/png");
    assert!(matches!(bad, Err(PromptError::InvalidParameters(_))));
    let bad_mime = PromptMessage::new_image(PromptMessageRole::Assistant, "aGVsbG8=", "text/plain");
    assert!(matches!(bad_mime, Err(PromptError::InvalidParameters(_))));
    let res = PromptMessage::new_resource(PromptMessageRole::User, "file:///a".to_string(), "text/plain".to_string(), Some("x".to_string()), None);
    assert!(matches!(res.content, PromptMessageContent::Resource { ref resource } if resource.uri == "file:///a"));
}
