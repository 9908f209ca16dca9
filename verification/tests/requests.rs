use clewdr::context::{BadRequestReason, ClaudeApiFormat, ClaudeContext, ClewdrError};
use clewdr::message::{
    ContentBlock, CreateMessageParams, CreateMessageResponse, Message, MessageContent, Role, Usage,
};
use clewdr::providers::{
    build_providers, ClaudeInvocation, ClaudeOperation, ClaudeProviders, CodeTask, WebTask,
};
use clewdr::session::{ClaudeWebState, ClientId, CookieActorHandle, CookieStatus, Upstream};
use clewdr::tool_call::ToolCallManager;
use clewdr::tool_result::{build_tool_result_payload, extract_tool_result_id};

fn upstream() -> Upstream {
    Upstream {
        endpoint: String::from("https://example.com/"),
        proxy: Some(String::from("http://proxy:1")),
        client: ClientId { id: 3 },
    }
}

fn context() -> ClaudeContext {
    ClaudeContext {
        stream: true,
        api_format: ClaudeApiFormat::OpenAI,
        usage: Usage { input_tokens: 11, output_tokens: 2 },
        system_prompt_hash: Some(99),
        anthropic_beta: Some(String::from("beta")),
        web: true,
    }
}

fn result(id: &str, is_error: Option<bool>) -> ContentBlock {
    ContentBlock::ToolResult {
        tool_use_id: String::from(id),
        content: serde_json::Value::from("done"),
        is_error,
        rest: serde_json::Value::from(serde_json::Map::new()),
    }
}

fn params(role: Role, blocks: Vec<ContentBlock>) -> CreateMessageParams {
    let mut params = CreateMessageParams::default();
    params.model = String::from("m");
    params.messages = vec![Message::new_blocks(role, blocks)];
    params
}

#[test]
fn last_result_of_the_last_message_counts() {
    let p = params(
        Role::User,
        vec![result("a", None), result("b", None), ContentBlock::text(String::from("t"))],
    );
    assert_eq!(extract_tool_result_id(&p), Some(String::from("b")));
}

#[test]
fn results_elsewhere_do_not_count() {
    assert_eq!(extract_tool_result_id(&CreateMessageParams::default()), None);
    assert_eq!(extract_tool_result_id(&params(Role::Assistant, vec![result("a", None)])), None);
    assert_eq!(extract_tool_result_id(&params(Role::User, vec![])), None);
    let mut p = params(Role::User, vec![result("a", None)]);
    p.messages.push(Message::new_text(Role::User, String::from("t")));
    assert_eq!(extract_tool_result_id(&p), None);
}

#[test]
fn payload_of_a_result() {
    let p = params(Role::User, vec![result("a", Some(false)), result("b", Some(true))]);
    assert_eq!(
        build_tool_result_payload(&p).to_string(),
        r#"{"content":"done","is_error":true,"tool_use_id":"b","type":"tool_result"}"#
    );
    let p = params(Role::User, vec![result("b", None)]);
    assert_eq!(
        build_tool_result_payload(&p).to_string(),
        r#"{"content":"done","is_error":false,"tool_use_id":"b","type":"tool_result"}"#
    );
}

#[test]
fn payload_ignores_the_role() {
    let p = params(Role::Assistant, vec![result("b", None)]);
    assert_eq!(build_tool_result_payload(&p)["tool_use_id"], "b");
}

#[test]
fn payload_without_a_result_is_empty() {
    let p = params(Role::User, vec![ContentBlock::text(String::from("t"))]);
    assert_eq!(build_tool_result_payload(&p).to_string(), "{}");
    let mut p = CreateMessageParams::default();
    p.messages.push(Message::new_text(Role::User, String::from("t")));
    assert_eq!(build_tool_result_payload(&p).to_string(), "{}");
}

#[test]
fn invocations_say_what_is_asked() {
    let m = ClaudeInvocation::messages(CreateMessageParams::default(), context());
    assert_eq!(m.operation, ClaudeOperation::Messages);
    assert_eq!(m.context.usage.input_tokens, 11);
    let c = ClaudeInvocation::count_tokens(CreateMessageParams::default(), context());
    assert_eq!(c.operation, ClaudeOperation::CountTokens);
}

#[test]
fn web_provider_refuses_counts() {
    let providers = build_providers(CookieActorHandle { id: 5 });
    let mut pending = ToolCallManager::new();
    let id = String::from("a");
    pending.register(id, ClaudeWebState::new(CookieActorHandle { id: 5 }, upstream()), 0);
    let request =
        ClaudeInvocation::count_tokens(params(Role::User, vec![result("a", None)]), context());
    match providers.web().invoke(request, upstream(), &mut pending) {
        Err(error) => {
            let reason = BadRequestReason::UnsupportedOperation;
            assert_eq!(error, ClewdrError::BadRequest { reason });
            assert_eq!(error.message("the web"), "Unsupported operation for the web");
            assert_eq!(error.message(""), "Unsupported operation for ");
        }
        Ok(_) => panic!("accepted"),
    }
    assert!(pending.take("a").is_some());
}

#[test]
fn web_provider_starts_chats() {
    let providers = ClaudeProviders::new(CookieActorHandle { id: 5 });
    let mut pending = ToolCallManager::new();
    let request =
        ClaudeInvocation::messages(params(Role::User, vec![result("a", None)]), context());
    match providers.web().invoke(request, upstream(), &mut pending) {
        Ok(WebTask::Chat { state, params, context }) => {
            assert_eq!(state.cookie_actor_handle, CookieActorHandle { id: 5 });
            assert!(state.cookie.is_none());
            assert!(state.last_params.is_none());
            assert_eq!(state.rest.to_string(), "{}");
            assert!(state.stream);
            assert_eq!(state.api_format, ClaudeApiFormat::OpenAI);
            assert_eq!(state.usage, Usage { input_tokens: 11, output_tokens: 2 });
            assert_eq!(state.upstream.client, ClientId { id: 3 });
            assert_eq!(params.model, "m");
            assert!(context.web);
        }
        _ => panic!("no chat"),
    }
}

#[test]
fn web_provider_resumes_a_tool_call_once() {
    let providers = build_providers(CookieActorHandle { id: 5 });
    let mut pending = ToolCallManager::new();
    let mut waiting = ClaudeWebState::new(CookieActorHandle { id: 8 }, upstream());
    waiting.cookie = Some(CookieStatus { cookie: String::from("c"), token: None });
    waiting.rest = serde_json::Value::from("conversation");
    pending.register(String::from("a"), waiting, 0);
    pending.register(
        String::from("b"),
        ClaudeWebState::new(CookieActorHandle { id: 9 }, upstream()),
        0,
    );
    let request =
        ClaudeInvocation::messages(params(Role::User, vec![result("a", None)]), context());
    match providers.web().invoke(request.clone(), upstream(), &mut pending) {
        Ok(WebTask::SendToolResult { session, payload, context }) => {
            assert_eq!(session.cookie_actor_handle, CookieActorHandle { id: 8 });
            assert_eq!(session.cookie.unwrap().cookie, "c");
            assert_eq!(session.rest, serde_json::Value::from("conversation"));
            assert!(session.stream);
            assert_eq!(session.api_format, ClaudeApiFormat::OpenAI);
            assert_eq!(session.usage.input_tokens, 11);
            assert_eq!(session.last_params.unwrap().model, "m");
            assert_eq!(payload["tool_use_id"], "a");
            assert_eq!(context.system_prompt_hash, Some(99));
        }
        _ => panic!("not resumed"),
    }
    match providers.web().invoke(request, upstream(), &mut pending) {
        Ok(WebTask::Chat { state, .. }) => {
            assert_eq!(state.cookie_actor_handle, CookieActorHandle { id: 5 })
        }
        _ => panic!("no chat"),
    }
    assert!(pending.take("b").is_some());
}

#[test]
fn code_provider_takes_both_operations() {
    let providers = build_providers(CookieActorHandle { id: 5 });
    let chat = ClaudeInvocation::messages(params(Role::User, vec![]), context());
    match providers.code().invoke(chat, upstream()) {
        CodeTask::Chat { state, params, .. } => {
            assert_eq!(state.cookie_actor_handle, CookieActorHandle { id: 5 });
            assert_eq!(state.system_prompt_hash, Some(99));
            assert_eq!(state.anthropic_beta_header, Some(String::from("beta")));
            assert_eq!(state.api_format, ClaudeApiFormat::OpenAI);
            assert!(state.stream);
            assert_eq!(state.usage.input_tokens, 11);
            assert!(state.cookie_header.is_none());
            assert_eq!(params.model, "m");
        }
        _ => panic!("no chat"),
    }
    let count = ClaudeInvocation::count_tokens(params(Role::User, vec![]), context());
    match providers.code().invoke(count, upstream()) {
        CodeTask::CountTokens { for_web, context, .. } => {
            assert!(for_web);
            assert!(context.stream);
        }
        _ => panic!("no count"),
    }
}

#[test]
fn copies_of_providers_share_the_actor() {
    let providers = build_providers(CookieActorHandle { id: 5 }).clone();
    let web = (*providers.web()).clone();
    let code = (*providers.code()).clone();
    let mut pending = ToolCallManager::new();
    let chat = ClaudeInvocation::messages(params(Role::User, vec![]), context());
    match web.invoke(chat.clone(), upstream(), &mut pending) {
        Ok(WebTask::Chat { state, .. }) => {
            assert_eq!(state.cookie_actor_handle, CookieActorHandle { id: 5 })
        }
        _ => panic!("no chat"),
    }
    match code.invoke(chat, upstream()) {
        CodeTask::Chat { state, .. } => {
            assert_eq!(state.cookie_actor_handle, CookieActorHandle { id: 5 })
        }
        _ => panic!("no chat"),
    }
}

#[test]
fn message_from_a_text() {
    for message in [Message::from("hi"), Message::from(String::from("hi"))] {
        assert_eq!(message.role, Role::Assistant);
        match message.content {
            MessageContent::Blocks { content } => {
                assert_eq!(content.len(), 1);
                assert!(matches!(&content[0], ContentBlock::Text { text } if text == "hi"));
            }
            MessageContent::Text { .. } => panic!("no blocks"),
        }
    }
}

#[test]
fn response_of_a_text() {
    let usage = Usage { input_tokens: 1, output_tokens: 2 };
    let response = CreateMessageResponse::text(String::from("t"), String::from("m"), usage);
    assert_eq!(response.content.len(), 1);
    assert!(matches!(&response.content[0], ContentBlock::Text { text } if text == "t"));
    assert_eq!(response.model, "m");
    assert_eq!(response.usage, Some(usage));
}

#[test]
fn copies_of_requests_hold_the_same() {
    let mut p = params(Role::User, vec![result("a", Some(true))]);
    p.tools = Some(vec![serde_json::Value::from(1)]);
    p.thinking = Some(serde_json::Value::from(true));
    let copy = p.clone();
    assert_eq!(extract_tool_result_id(&copy), Some(String::from("a")));
    assert_eq!(copy.tools, Some(vec![serde_json::Value::from(1)]));
    assert_eq!(copy.thinking, Some(serde_json::Value::from(true)));
    assert_eq!(copy.rest.to_string(), "{}");
    assert!(copy.has_tools());
    p.tools = Some(vec![]);
    assert!(!p.has_tools());
    p.tools = None;
    assert!(!p.has_tools());
}
