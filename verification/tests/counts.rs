use clewdr::count::{
    bearer_count_tokens, count_code_output_tokens_for_text, count_request, CountAction, CountNext,
    CountOutcome, Counting,
};
use clewdr::message::{CreateMessageParams, MessageContent, Role};
use clewdr::session::{
    ClaudeCodeState, ClaudeWebState, ClientId, CookieActorHandle, CookieStatus, TokenInfo, Upstream,
};

fn upstream(endpoint: &str) -> Upstream {
    Upstream {
        endpoint: String::from(endpoint),
        proxy: Some(String::from("p")),
        client: ClientId { id: 3 },
    }
}

fn cookie(text: &str) -> Option<CookieStatus> {
    Some(CookieStatus { cookie: String::from(text), token: None })
}

fn session(text: &str) -> ClaudeWebState {
    let mut state =
        ClaudeWebState::new(CookieActorHandle { id: 5 }, upstream("https://example.com/base/"));
    state.cookie = cookie(text);
    let mut params = CreateMessageParams::default();
    params.model = String::from("m");
    params.stream = Some(true);
    state.last_params = Some(params);
    state
}

#[test]
fn input_count_needs_cookie_and_request() {
    let mut state = session("c");
    state.cookie = None;
    assert!(state.try_code_count_tokens().is_none());
    let mut state = session("c");
    state.last_params = None;
    assert!(state.try_code_count_tokens().is_none());
}

#[test]
fn input_count_does_not_stream() {
    let task = session("k=v\tw").try_code_count_tokens().unwrap();
    assert_eq!(task.body.stream, Some(false));
    assert_eq!(task.body.model, "m");
    assert_eq!(task.code.cookie_actor_handle, CookieActorHandle { id: 5 });
    assert_eq!(task.code.cookie_header, Some(b"k=v\tw".to_vec()));
    assert_eq!(task.code.cookie.unwrap().cookie, "k=v\tw");
    assert_eq!(task.code.upstream.proxy, Some(String::from("p")));
    assert_eq!(task.code.upstream.client, ClientId { id: 3 });
}

#[test]
fn cookie_with_control_characters_has_no_header() {
    for bad in ["a\nb", "a\u{7f}", "\u{0}", "a\u{1f}"] {
        let task = session(bad).try_code_count_tokens().unwrap();
        assert_eq!(task.code.cookie_header, None);
        assert_eq!(task.code.cookie.unwrap().cookie, bad);
    }
    let task = session("\u{e9}").try_code_count_tokens().unwrap();
    assert_eq!(task.code.cookie_header, Some(vec![0xc3, 0xa9]));
}

#[test]
fn output_count_is_of_the_assistant() {
    let task = count_code_output_tokens_for_text(
        &cookie("c"),
        upstream("https://example.com/"),
        String::from("m"),
        String::from("t"),
        CookieActorHandle { id: 6 },
    );
    assert_eq!(task.code.cookie_actor_handle, CookieActorHandle { id: 6 });
    assert_eq!(task.code.cookie_header, Some(b"c".to_vec()));
    assert_eq!(task.body.model, "m");
    assert_eq!(task.body.stream, None);
    assert!(task.body.tools.is_none());
    assert_eq!(task.body.messages.len(), 1);
    assert_eq!(task.body.messages[0].role, Role::Assistant);
    assert!(
        matches!(&task.body.messages[0].content, MessageContent::Text { content } if content == "t")
    );
}

#[test]
fn output_count_without_a_cookie() {
    let task = count_code_output_tokens_for_text(
        &None,
        upstream("https://example.com/"),
        String::from("m"),
        String::from("t"),
        CookieActorHandle { id: 6 },
    );
    assert!(task.code.cookie.is_none());
    assert!(task.code.cookie_header.is_none());
    assert!(task.request().is_none());
}

#[test]
fn request_needs_a_token() {
    assert!(session("c").try_code_count_tokens().unwrap().request().is_none());
    let mut task = session("c").try_code_count_tokens().unwrap();
    task.code.cookie = Some(CookieStatus {
        cookie: String::from("c"),
        token: Some(TokenInfo { access_token: String::from("tok") }),
    });
    let request = task.request().unwrap();
    assert_eq!(request.url, "https://example.com/base/v1/messages/count_tokens");
    assert_eq!(request.access_token, "tok");
    assert_eq!(request.version_header, "anthropic-version");
    assert_eq!(request.version, "2023-06-01");
    assert_eq!(request.body.stream, Some(false));
}

#[test]
fn request_is_relative_to_the_endpoint() {
    let state =
        ClaudeCodeState::new(CookieActorHandle { id: 1 }, upstream("https://example.com/base"));
    let request = bearer_count_tokens(&state, "tok", CreateMessageParams::default()).unwrap();
    assert_eq!(request.url, "https://example.com/v1/messages/count_tokens");
}

#[test]
fn no_request_where_urls_do_not_join() {
    for endpoint in ["mailto:someone", "nowhere"] {
        let state = ClaudeCodeState::new(CookieActorHandle { id: 1 }, upstream(endpoint));
        assert!(bearer_count_tokens(&state, "tok", CreateMessageParams::default()).is_none());
    }
    assert!(count_request(None, "tok", CreateMessageParams::default()).is_none());
}

/// The step that a count goes on with.
fn asked(next: Option<CountNext<u8>>) -> (Counting, CountAction<u8>) {
    match next {
        Some(CountNext::Ask { state, action }) => (state, action),
        _ => panic!("nothing asked"),
    }
}

/// A count that awaits its organization, and the session.
fn finding() -> (Counting, ClaudeCodeState) {
    match asked(Some(session("c").try_code_count_tokens().unwrap().begin())) {
        (state, CountAction::FindOrganization { code }) => (state, code),
        _ => panic!("not the organization"),
    }
}

/// A count that awaits its code, and the session.
fn coding() -> (Counting, ClaudeCodeState) {
    let (state, code) = finding();
    let organization = Some(String::from("org"));
    match asked(state.advance(CountOutcome::Organization { code, organization })) {
        (state, CountAction::ExchangeCode { code, organization }) => {
            assert_eq!(organization, "org");
            (state, code)
        }
        _ => panic!("not the code"),
    }
}

/// A count that awaits its token, and the session with a token.
fn granting() -> (Counting, ClaudeCodeState) {
    let (state, code) = coding();
    match asked(state.advance(CountOutcome::Code { code, exchange: Some(7) })) {
        (state, CountAction::ExchangeToken { mut code, exchange }) => {
            assert_eq!(exchange, 7);
            code.cookie = Some(CookieStatus {
                cookie: String::from("c"),
                token: Some(TokenInfo { access_token: String::from("tok") }),
            });
            (state, code)
        }
        _ => panic!("not the token"),
    }
}

/// A count that awaits the reply to its request.
fn posting() -> Counting {
    let (state, code) = granting();
    match asked(state.advance(CountOutcome::Token { code, granted: true })) {
        (state, CountAction::Post { client, request }) => {
            assert_eq!(client, ClientId { id: 3 });
            assert_eq!(request.url, "https://example.com/base/v1/messages/count_tokens");
            assert_eq!(request.access_token, "tok");
            assert_eq!(request.body.model, "m");
            assert_eq!(request.body.stream, Some(false));
            state
        }
        _ => panic!("not posted"),
    }
}

#[test]
fn count_goes_through_its_exchanges() {
    let next = posting().advance::<u8>(CountOutcome::Reply { tokens: Some(42) });
    assert!(matches!(next, Some(CountNext::Counted { tokens: 42 })));
}

#[test]
fn any_failure_ends_a_count() {
    let (state, code) = finding();
    let outcome = CountOutcome::<u8>::Organization { code, organization: None };
    assert!(state.advance(outcome).is_none());
    let (state, code) = coding();
    assert!(state.advance(CountOutcome::<u8>::Code { code, exchange: None }).is_none());
    let (state, code) = granting();
    assert!(state.advance(CountOutcome::<u8>::Token { code, granted: false }).is_none());
    assert!(posting().advance(CountOutcome::<u8>::Reply { tokens: None }).is_none());
}

#[test]
fn grant_without_a_token_ends_a_count() {
    let (state, mut code) = granting();
    code.cookie = cookie("c");
    assert!(state.advance(CountOutcome::<u8>::Token { code, granted: true }).is_none());
}

#[test]
fn outcome_that_is_not_awaited_ends_a_count() {
    let (state, _) = finding();
    assert!(state.advance(CountOutcome::<u8>::Reply { tokens: Some(1) }).is_none());
}
