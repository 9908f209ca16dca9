use clewdr::session::{ClaudeWebState, ClientId, CookieActorHandle, Upstream};
use clewdr::tool_call::ToolCallManager;

fn session(id: u64) -> ClaudeWebState {
    ClaudeWebState::new(
        CookieActorHandle { id },
        Upstream {
            endpoint: String::from("https://example.com/"),
            proxy: None,
            client: ClientId { id: 0 },
        },
    )
}

#[test]
fn new_manager_has_nothing_pending() {
    let mut calls = ToolCallManager::new();
    assert!(calls.take("a").is_none());
}

#[test]
fn registered_call_is_taken_once() {
    let mut calls = ToolCallManager::new();
    calls.register(String::from("a"), session(1), 10);
    calls.register(String::from("b"), session(2), 20);
    let state = calls.take("a").unwrap();
    assert_eq!(state.session.cookie_actor_handle.id, 1);
    assert_eq!(state.created_at, 10);
    assert!(calls.take("a").is_none());
    assert_eq!(calls.take("b").unwrap().session.cookie_actor_handle.id, 2);
}

#[test]
fn registering_again_replaces() {
    let mut calls = ToolCallManager::new();
    calls.register(String::from("a"), session(1), 10);
    calls.register(String::from("a"), session(2), 20);
    let state = calls.take("a").unwrap();
    assert_eq!(state.session.cookie_actor_handle.id, 2);
    assert_eq!(state.created_at, 20);
    assert!(calls.take("a").is_none());
}

#[test]
fn cleanup_drops_what_is_older_than_the_timeout() {
    let mut calls = ToolCallManager::new();
    calls.register(String::from("old"), session(1), 10);
    calls.register(String::from("edge"), session(2), 20);
    calls.register(String::from("new"), session(3), 30);
    calls.register(String::from("older"), session(4), 0);
    let mut expired = calls.cleanup(70, 50);
    expired.sort();
    assert_eq!(expired, vec![String::from("old"), String::from("older")]);
    assert!(calls.take("old").is_none());
    assert!(calls.take("older").is_none());
    assert_eq!(calls.take("edge").unwrap().created_at, 20);
    assert_eq!(calls.take("new").unwrap().created_at, 30);
}

#[test]
fn cleanup_spares_calls_from_the_future() {
    let mut calls = ToolCallManager::new();
    calls.register(String::from("a"), session(1), 100);
    assert!(calls.cleanup(5, 0).is_empty());
    assert!(calls.take("a").is_some());
}

#[test]
fn session_registers_itself_as_it_stands() {
    let mut calls = ToolCallManager::new();
    calls.register(String::from("b"), session(2), 20);
    let mut waiting = session(1);
    waiting.stream = true;
    waiting.rest = serde_json::Value::from("conversation");
    waiting.register_call(&mut calls, String::from("a"), 30);
    waiting.stream = false;
    let state = calls.take("a").unwrap();
    assert_eq!(state.session.cookie_actor_handle.id, 1);
    assert!(state.session.stream);
    assert_eq!(state.session.rest, serde_json::Value::from("conversation"));
    assert_eq!(state.created_at, 30);
    assert_eq!(calls.take("b").unwrap().created_at, 20);
}

#[test]
fn two_cleanups_leave_what_the_later_one_leaves() {
    let mut twice = ToolCallManager::new();
    let mut once = ToolCallManager::new();
    for (id, at) in [("a", 0u128), ("b", 15), ("c", 30)] {
        twice.register(String::from(id), session(1), at);
        once.register(String::from(id), session(1), at);
    }
    twice.cleanup(12, 10);
    twice.cleanup(30, 10);
    once.cleanup(30, 10);
    for id in ["a", "b", "c"] {
        assert_eq!(twice.take(id).is_some(), once.take(id).is_some());
    }
}
