use clewdr::event::{read_fields, OutgoingEvent, StreamEvent};
use clewdr::family::ModelFamily;
use clewdr::message::{ContentBlock, CreateMessageParams, CreateMessageResponse, Usage};
use clewdr::reply::{merge_sse, Reply, ReplyAction, ReplyInput, ReplyPhase};
use clewdr::session::{ClaudeWebState, ClientId, CookieActorHandle, CookieStatus, Upstream};

fn session(stream: bool, tools: bool, model: Option<&str>, cookie: bool) -> ClaudeWebState {
    let mut state = ClaudeWebState::new(
        CookieActorHandle { id: 5 },
        Upstream {
            endpoint: String::from("https://example.com/"),
            proxy: None,
            client: ClientId { id: 0 },
        },
    );
    state.stream = stream;
    state.usage = Usage { input_tokens: 7, output_tokens: 1 };
    if let Some(model) = model {
        let mut params = CreateMessageParams::default();
        params.model = String::from(model);
        if tools {
            params.tools = Some(vec![serde_json::Value::from("t")]);
        }
        state.last_params = Some(params);
    }
    if cookie {
        state.cookie = Some(CookieStatus { cookie: String::from("c"), token: None });
    }
    state
}

fn event(name: &str, data: &str, completion: Option<&str>) -> StreamEvent {
    StreamEvent {
        event: String::from(name),
        id: String::from("i"),
        data: String::from(data),
        retry_ms: Some(1500),
        completion: completion.map(String::from),
    }
}

fn sent(actions: &Vec<ReplyAction>) -> Vec<&OutgoingEvent> {
    let mut events = Vec::new();
    for action in actions {
        if let ReplyAction::Send { event } = action {
            events.push(event);
        }
    }
    events
}

fn said(response: &CreateMessageResponse) -> &str {
    match &response.content[0] {
        ContentBlock::Text { text } => text,
        _ => panic!("no text"),
    }
}

fn relaying(tools: bool) -> Reply {
    let (reply, actions) = session(true, tools, Some("opus"), true).transform_response(false);
    assert!(matches!(actions[..], [ReplyAction::Next]));
    reply
}

/// Hands in an event that is passed on as it is.
fn passes(reply: Reply, e: StreamEvent) -> Reply {
    let name = e.event.clone();
    let data = e.data.clone();
    let (reply, actions) = reply.accept(e);
    assert_eq!(actions.len(), 2);
    assert!(matches!(actions[1], ReplyAction::Next));
    let events = sent(&actions);
    assert_eq!(events[0].event, name);
    assert_eq!(events[0].data, data);
    assert_eq!(events[0].id, Some(String::from("i")));
    assert_eq!(events[0].retry_ms, Some(1500));
    reply
}

/// Hands in an event that is held back.
fn held_back(reply: Reply, e: StreamEvent) -> Reply {
    let (reply, actions) = reply.accept(e);
    assert!(matches!(actions[..], [ReplyAction::Next]));
    reply
}

const TOOL_START: &str = r#"{"type":"content_block_start","index":2,"content_block":{"type":"tool_use","name":"mine","id":"tu1"}}"#;
const TOOL_STOP: &str = r#"{"type":"content_block_stop","index":2}"#;

#[test]
fn fields_of_an_event() {
    let fields = read_fields(
        r#"{"type":"content_block_start","index":4,"content_block":{"type":"tool_use","name":"n","id":"x","message":"m","integration_name":7}}"#,
    )
    .unwrap();
    assert_eq!(fields.event_type, "content_block_start");
    assert_eq!(fields.index, Some(4));
    let block = fields.block.unwrap();
    assert_eq!(block.block_type, "tool_use");
    assert_eq!(block.name, "n");
    assert_eq!(block.id, "x");
    assert!(block.has_message);
    assert!(!block.has_integration_name);
}

#[test]
fn fields_that_are_not_there() {
    assert!(read_fields("no json").is_none());
    let fields = read_fields(r#"{"type":3,"index":-1}"#).unwrap();
    assert_eq!(fields.event_type, "");
    assert_eq!(fields.index, None);
    assert!(fields.block.is_none());
    let fields = read_fields(r#"[1]"#).unwrap();
    assert_eq!(fields.event_type, "");
    let fields = read_fields(r#"{"index":1.5,"content_block":null}"#).unwrap();
    assert_eq!(fields.index, None);
    assert_eq!(fields.block.unwrap().block_type, "");
}

#[test]
fn ordinary_events_pass_unchanged() {
    let reply = relaying(true);
    let reply = passes(reply, event("completion", "no json", None));
    let reply = passes(reply, event("completion", r#"{"completion":"a"}"#, Some("a")));
    let reply = passes(
        reply,
        event(
            "content_block_start",
            r#"{"type":"content_block_start","index":0,"content_block":{"type":"text"}}"#,
            None,
        ),
    );
    let reply = passes(reply, event("d", r#"{"type":"content_block_delta","index":0}"#, None));
    passes(reply, event("s", r#"{"type":"content_block_stop","index":0}"#, None));
}

#[test]
fn limit_events_are_held_back() {
    let reply = held_back(relaying(false), event("message_limit", "{}", Some("x")));
    match reply.phase {
        ReplyPhase::Relaying { relay } => assert_eq!(relay.text, "x"),
        _ => panic!("not relaying"),
    }
}

#[test]
fn server_tools_are_held_back() {
    for block in [
        r#"{"type":"tool_use","name":"builtin_search","id":"a"}"#,
        r#"{"type":"tool_use","name":"x","message":"m"}"#,
        r#"{"type":"tool_use","name":"x","integration_name":"m"}"#,
        r#"{"type":"tool_result"}"#,
    ] {
        let start =
            format!(r#"{{"type":"content_block_start","index":1,"content_block":{block}}}"#);
        for tools in [false, true] {
            let reply = held_back(relaying(tools), event("e", &start, None));
            let reply =
                held_back(reply, event("e", r#"{"type":"content_block_delta","index":1}"#, None));
            let reply =
                passes(reply, event("e", r#"{"type":"content_block_delta","index":0}"#, None));
            let reply =
                held_back(reply, event("e", r#"{"type":"content_block_stop","index":1}"#, None));
            passes(reply, event("e", r#"{"type":"content_block_stop"}"#, None));
        }
    }
}

#[test]
fn hidden_block_without_an_index_hides_its_start_only() {
    let reply = held_back(
        relaying(true),
        event(
            "e",
            r#"{"type":"content_block_start","content_block":{"type":"tool_result"}}"#,
            None,
        ),
    );
    passes(reply, event("e", r#"{"type":"content_block_delta"}"#, None));
}

#[test]
fn client_tool_call_ends_the_reply() {
    let reply = passes(relaying(true), event("start", TOOL_START, None));
    let reply = passes(reply, event("d", r#"{"type":"content_block_delta","index":2}"#, None));
    let reply = passes(reply, event("s", r#"{"type":"content_block_stop","index":1}"#, None));
    let (reply, actions) = reply.accept(event("stop", TOOL_STOP, None));
    assert_eq!(actions.len(), 5);
    let events = sent(&actions);
    assert_eq!(events[0].event, "stop");
    assert_eq!(events[0].data, TOOL_STOP);
    assert_eq!(events[0].retry_ms, Some(1500));
    assert_eq!(events[1].event, "message_delta");
    assert_eq!(events[1].id, None);
    assert_eq!(events[1].retry_ms, None);
    assert_eq!(
        events[1].data,
        r#"{"delta":{"stop_reason":"tool_use","stop_sequence":null},"type":"message_delta","usage":{"output_tokens":0}}"#
    );
    assert_eq!(events[2].event, "message_stop");
    assert_eq!(events[2].data, r#"{"type":"message_stop"}"#);
    assert!(matches!(&actions[3], ReplyAction::Register { tool_use_id } if tool_use_id == "tu1"));
    assert!(matches!(actions[4], ReplyAction::Finish));
    let (reply, actions) = reply.accept(event("e", "{}", None));
    assert!(actions.is_empty());
    let (_, actions) = reply.advance(ReplyInput::End);
    assert!(actions.is_empty());
}

#[test]
fn tool_call_stays_open_beside_other_blocks() {
    let reply = passes(relaying(true), event("start", TOOL_START, None));
    let reply = passes(
        reply,
        event(
            "e",
            r#"{"type":"content_block_start","index":3,"content_block":{"type":"text"}}"#,
            None,
        ),
    );
    let reply = passes(reply, event("e", r#"{"type":"content_block_stop","index":3}"#, None));
    let reply = held_back(
        reply,
        event(
            "e",
            r#"{"type":"content_block_start","index":4,"content_block":{"type":"tool_result"}}"#,
            None,
        ),
    );
    let reply = held_back(reply, event("e", r#"{"type":"content_block_stop","index":4}"#, None));
    let (_, actions) = reply.accept(event("stop", TOOL_STOP, None));
    assert_eq!(actions.len(), 5);
    assert!(matches!(&actions[3], ReplyAction::Register { tool_use_id } if tool_use_id == "tu1"));
}

#[test]
fn limit_event_that_ends_a_tool_call_is_sent() {
    let reply = passes(relaying(true), event("start", TOOL_START, None));
    let (_, actions) = reply.accept(event("message_limit", TOOL_STOP, None));
    assert_eq!(sent(&actions)[0].event, "message_limit");
    assert_eq!(actions.len(), 5);
}

#[test]
fn without_tools_a_tool_call_is_passed_on() {
    let reply = passes(relaying(false), event("start", TOOL_START, None));
    passes(reply, event("stop", TOOL_STOP, None));
}

#[test]
fn tool_call_without_an_id_is_registered_under_none() {
    let start = r#"{"type":"content_block_start","content_block":{"type":"tool_use"}}"#;
    let reply = passes(relaying(true), event("start", start, None));
    let (_, actions) = reply.accept(event("stop", r#"{"type":"content_block_stop"}"#, None));
    assert!(matches!(&actions[3], ReplyAction::Register { tool_use_id } if tool_use_id.is_empty()));
}

#[test]
fn streamed_reply_is_estimated_and_recorded() {
    let reply = passes(relaying(false), event("e", "{}", Some("ab")));
    let reply = passes(reply, event("e", "{}", None));
    let reply = passes(reply, event("e", "{}", Some("c")));
    let (reply, actions) = reply.advance(ReplyInput::End);
    match &actions[..] {
        [ReplyAction::Estimate { response }] => {
            assert_eq!(said(response), "abc");
            assert_eq!(response.model, "");
            assert_eq!(response.usage, Some(Usage { input_tokens: 7, output_tokens: 0 }));
        }
        _ => panic!("no estimate"),
    }
    let (reply, actions) = reply.advance(ReplyInput::Estimated { estimate: 3 });
    assert!(matches!(
        actions[..],
        [
            ReplyAction::Record { input_tokens: 7, output_tokens: 3, family: ModelFamily::Opus },
            ReplyAction::Finish
        ]
    ));
    assert!(matches!(reply.phase, ReplyPhase::Finished));
}

#[test]
fn empty_streamed_reply_is_recorded_at_once() {
    let (_, actions) = relaying(false).advance(ReplyInput::End);
    assert!(matches!(
        actions[..],
        [
            ReplyAction::Record { input_tokens: 7, output_tokens: 0, family: ModelFamily::Opus },
            ReplyAction::Finish
        ]
    ));
}

#[test]
fn without_a_cookie_nothing_is_recorded() {
    let (reply, _) = session(true, false, None, false).transform_response(false);
    let (_, actions) = reply.advance(ReplyInput::End);
    assert!(matches!(actions[..], [ReplyAction::Finish]));
}

#[test]
fn streamed_reply_is_counted_exactly() {
    let (reply, actions) = session(true, false, Some("sonnet"), true).transform_response(true);
    assert!(matches!(actions[..], [ReplyAction::CountInput]));
    let (reply, actions) = reply.advance(ReplyInput::InputCounted { tokens: Some(20) });
    assert!(matches!(actions[..], [ReplyAction::Next]));
    let reply = passes(reply, event("e", "{}", Some("ab")));
    let (reply, actions) = reply.advance(ReplyInput::End);
    match &actions[..] {
        [ReplyAction::CountOutput { model, text }] => {
            assert_eq!(model, "sonnet");
            assert_eq!(text, "ab");
        }
        _ => panic!("no count"),
    }
    let (_, actions) = reply.advance(ReplyInput::OutputCounted { tokens: Some(4) });
    assert!(matches!(
        actions[..],
        [
            ReplyAction::Record { input_tokens: 20, output_tokens: 4, family: ModelFamily::Sonnet },
            ReplyAction::Finish
        ]
    ));
}

#[test]
fn failed_counts_fall_back() {
    let (reply, _) = session(true, false, Some("x"), true).transform_response(true);
    let (reply, _) = reply.advance(ReplyInput::InputCounted { tokens: None });
    let reply = passes(reply, event("e", "{}", Some("ab")));
    let (reply, _) = reply.advance(ReplyInput::End);
    let (reply, actions) = reply.advance(ReplyInput::OutputCounted { tokens: None });
    assert!(matches!(actions[..], [ReplyAction::Estimate { .. }]));
    let (_, actions) = reply.advance(ReplyInput::Estimated { estimate: 9 });
    assert!(matches!(
        actions[..],
        [
            ReplyAction::Record { input_tokens: 7, output_tokens: 9, family: ModelFamily::Other },
            ReplyAction::Finish
        ]
    ));
}

#[test]
fn whole_reply_is_answered() {
    let (reply, actions) = session(false, true, Some("opus"), false).transform_response(false);
    assert!(matches!(actions[..], [ReplyAction::Merge]));
    let (reply, actions) = reply.advance(ReplyInput::Merged { text: String::from("abc") });
    match &actions[..] {
        [ReplyAction::Estimate { response }] => {
            assert_eq!(said(response), "abc");
            assert_eq!(response.usage, Some(Usage { input_tokens: 7, output_tokens: 1 }));
        }
        _ => panic!("no estimate"),
    }
    let (_, actions) = reply.advance(ReplyInput::Estimated { estimate: 3 });
    match &actions[..] {
        [ReplyAction::Persist { input_tokens: 7, output_tokens: 3 }, ReplyAction::Respond { response }] =>
        {
            assert_eq!(said(response), "abc");
            assert_eq!(response.model, "");
            assert_eq!(response.usage, Some(Usage { input_tokens: 7, output_tokens: 3 }));
        }
        _ => panic!("no answer"),
    }
}

#[test]
fn whole_reply_is_counted_exactly() {
    let (reply, _) = session(false, false, Some("opus"), true).transform_response(true);
    let (reply, actions) = reply.advance(ReplyInput::Merged { text: String::new() });
    assert!(matches!(actions[..], [ReplyAction::CountInput]));
    let (reply, actions) = reply.advance(ReplyInput::InputCounted { tokens: Some(30) });
    assert!(matches!(actions[..], [ReplyAction::CountOutput { .. }]));
    let (_, actions) = reply.advance(ReplyInput::OutputCounted { tokens: Some(8) });
    assert!(matches!(
        actions[..],
        [
            ReplyAction::Persist { input_tokens: 30, output_tokens: 8 },
            ReplyAction::Respond { .. }
        ]
    ));
}

#[test]
fn whole_reply_without_a_model_is_estimated() {
    let (reply, _) = session(false, false, None, true).transform_response(true);
    let (reply, _) = reply.advance(ReplyInput::Merged { text: String::from("a") });
    let (_, actions) = reply.advance(ReplyInput::InputCounted { tokens: None });
    assert!(matches!(actions[..], [ReplyAction::Estimate { .. }]));
}

#[test]
fn broken_off_replies_fail() {
    let (reply, actions) = relaying(true).advance(ReplyInput::Failed);
    assert!(matches!(actions[..], [ReplyAction::Fail]));
    assert!(matches!(reply.phase, ReplyPhase::Finished));
    let (reply, _) = session(false, false, None, true).transform_response(false);
    let (_, actions) = reply.advance(ReplyInput::Failed);
    assert!(matches!(actions[..], [ReplyAction::Fail]));
}

#[test]
fn what_is_not_awaited_changes_nothing() {
    let (reply, actions) = relaying(true).advance(ReplyInput::Estimated { estimate: 1 });
    assert!(actions.is_empty());
    let (reply, actions) = reply.advance(ReplyInput::Merged { text: String::from("a") });
    assert!(actions.is_empty());
    passes(reply, event("e", "{}", None));
}

#[test]
fn completions_are_merged() {
    let events = vec![
        event("e", "", Some("ab")),
        event("e", "", None),
        event("e", "", Some("")),
        event("e", "", Some("c")),
    ];
    assert_eq!(merge_sse::<u8>(&events, None), Ok(String::from("abc")));
    assert_eq!(merge_sse::<u8>(&vec![], None), Ok(String::new()));
    assert_eq!(merge_sse(&events, Some(5u8)), Err(5));
}
