//! Exact token counts, which the code service gives: the session that a count
//! goes through, and the request for it.
use crate::message::{CreateMessageParams, Message, MessageView, ParamsView, Role};
use crate::session::{
    cookie_view, copy_cookie, ClaudeCodeState, ClaudeWebState, ClientId, CodeView,
    CookieActorHandle, CookieStatus, CookieView, Upstream, UpstreamView, WebView,
};
use crate::text::text_view;
use vstd::prelude::*;
use vstd::utf8::encode_utf8;

verus! {

/// A byte that the value of a header may hold: anything but a control
/// character, or a tab.
pub open spec fn is_header_byte(byte: u8) -> bool {
    byte >= 32 && byte != 127 || byte == 9
}

/// The value of a header that says `text`; none where it may not be said.
pub open spec fn header_value(text: Seq<char>) -> Option<Seq<u8>> {
    let bytes = encode_utf8(text);
    if forall|k: int| 0 <= k < bytes.len() ==> is_header_byte(#[trigger] bytes[k]) {
        Some(bytes)
    } else {
        None
    }
}

/// `http::HeaderValue::from_str`, then the bytes of the value: those of the
/// text, or an error where one of them is a control character other than a tab.
#[verifier::external_body]
fn header_bytes(text: &str) -> (bytes: Option<Vec<u8>>)
    ensures
        bytes is Some <==> header_value(text@) is Some,
        bytes matches Some(b) ==> header_value(text@) == Some(b@),
{
    http::HeaderValue::from_str(text).ok().map(|value| value.as_bytes().to_vec())
}

/// Where `input` leads, taken relative to the URL `base`; nowhere where `base`
/// is no URL, or the two make none.
pub uninterp spec fn url_join(base: Seq<char>, input: Seq<char>) -> Option<Seq<char>>;

/// `url::Url::join`, on URLs written out as texts. The result is the one that
/// `url_join` names.
#[verifier::external_body]
fn join_url(base: &str, input: &str) -> (joined: Option<String>)
    ensures
        text_view(joined) == url_join(base@, input@),
{
    let base = url::Url::parse(base).ok()?;
    base.join(input).ok().map(|joined| joined.to_string())
}

/// A count that is to be asked for: the session it goes through, and the
/// request whose tokens are counted.
#[derive(Debug)]
pub struct CountTask {
    pub code: ClaudeCodeState,
    pub body: CreateMessageParams,
}

/// What a `CountTask` holds.
#[verifier::ext_equal]
pub struct TaskView {
    pub code: CodeView,
    pub body: ParamsView,
}

impl View for CountTask {
    type V = TaskView;

    open spec fn view(&self) -> TaskView {
        TaskView { code: self.code@, body: self.body@ }
    }
}

impl CodeView {
    /// The session that a count goes through: it has the cookie, and says it in
    /// its header where it may be said.
    pub open spec fn counting(
        handle: CookieActorHandle,
        cookie: Option<CookieView>,
        upstream: UpstreamView,
    ) -> CodeView {
        CodeView {
            cookie,
            cookie_header: match cookie {
                Some(c) => header_value(c.cookie),
                None => None,
            },
            ..CodeView::unused(handle, upstream)
        }
    }

    /// The access token that was got for the cookie.
    pub open spec fn access_token(self) -> Option<Seq<char>> {
        match self.cookie {
            Some(cookie) => cookie.token,
            None => None,
        }
    }
}

impl WebView {
    /// The count of the tokens of the last request. There is none without a
    /// cookie.
    pub open spec fn input_count(self) -> Option<TaskView> {
        match (self.cookie, self.last_params) {
            (Some(_), Some(params)) => Some(
                TaskView {
                    code: CodeView::counting(
                        self.cookie_actor_handle,
                        self.cookie,
                        self.upstream,
                    ),
                    body: ParamsView { stream: Some(false), ..params },
                },
            ),
            _ => None,
        }
    }
}

impl ParamsView {
    /// The request whose tokens are those of a reply of `model`.
    pub open spec fn replying(model: Seq<char>, text: Seq<char>) -> ParamsView {
        ParamsView {
            model,
            messages: seq![
                MessageView {
                    role: Role::Assistant,
                    content: crate::message::ContentView::Text(text),
                },
            ],
            ..ParamsView::blank()
        }
    }
}

/// The session that a count goes through.
fn counting_session(
    cookie: &Option<CookieStatus>,
    upstream: Upstream,
    handle: CookieActorHandle,
) -> (code: ClaudeCodeState)
    ensures
        code@ == CodeView::counting(handle, cookie_view(*cookie), upstream@),
{
    let mut code = ClaudeCodeState::new(handle, upstream);
    code.cookie = copy_cookie(cookie);
    if let Some(c) = cookie {
        if let Some(bytes) = header_bytes(&c.cookie) {
            code.cookie_header = Some(bytes);
        }
    }
    code
}

impl ClaudeWebState {
    /// The count of the tokens of the last request. There is none without a
    /// cookie.
    pub fn try_code_count_tokens(&self) -> (task: Option<CountTask>)
        ensures
            match task {
                Some(t) => self@.input_count() == Some(t@),
                None => self@.input_count() is None,
            },
    {
        if self.cookie.is_none() {
            return None;
        }
        match &self.last_params {
            Some(params) => {
                let code = counting_session(
                    &self.cookie,
                    self.upstream.clone(),
                    self.cookie_actor_handle,
                );
                let mut body = params.clone();
                body.stream = Some(false);
                Some(CountTask { code, body })
            },
            None => None,
        }
    }
}

/// The count of the tokens of a reply of `model`.
pub fn count_code_output_tokens_for_text(
    cookie: &Option<CookieStatus>,
    upstream: Upstream,
    model: String,
    text: String,
    handle: CookieActorHandle,
) -> (task: CountTask)
    ensures
        task@ == (TaskView {
            code: CodeView::counting(handle, cookie_view(*cookie), upstream@),
            body: ParamsView::replying(model@, text@),
        }),
{
    let code = counting_session(cookie, upstream, handle);
    let mut body = CreateMessageParams::default();
    body.model = model;
    body.messages = vec![Message::new_text(Role::Assistant, text)];
    assert(body@.messages =~= ParamsView::replying(model@, text@).messages);
    CountTask { code, body }
}

/// A request for a count, as it is posted: with the access token as bearer, the
/// version header, and the body as JSON.
#[derive(Debug)]
pub struct CountRequest {
    pub url: String,
    pub access_token: String,
    pub version_header: String,
    pub version: String,
    pub body: CreateMessageParams,
}

/// What a `CountRequest` holds.
#[verifier::ext_equal]
pub struct RequestView {
    pub url: Seq<char>,
    pub access_token: Seq<char>,
    pub version_header: Seq<char>,
    pub version: Seq<char>,
    pub body: ParamsView,
}

impl View for CountRequest {
    type V = RequestView;

    open spec fn view(&self) -> RequestView {
        RequestView {
            url: self.url@,
            access_token: self.access_token@,
            version_header: self.version_header@,
            version: self.version@,
            body: self.body@,
        }
    }
}

impl RequestView {
    /// The request that is posted to `url`; none where there is no URL.
    pub open spec fn posted(
        url: Option<Seq<char>>,
        access_token: Seq<char>,
        body: ParamsView,
    ) -> Option<RequestView> {
        match url {
            Some(u) => Some(
                RequestView {
                    url: u,
                    access_token,
                    version_header: "anthropic-version"@,
                    version: "2023-06-01"@,
                    body,
                },
            ),
            None => None,
        }
    }

    /// The request for a count through a session.
    pub open spec fn counting(
        code: CodeView,
        access_token: Seq<char>,
        body: ParamsView,
    ) -> Option<RequestView> {
        RequestView::posted(
            url_join(code.upstream.endpoint, "v1/messages/count_tokens"@),
            access_token,
            body,
        )
    }
}

/// What an optional request holds.
pub open spec fn request_view(request: Option<CountRequest>) -> Option<RequestView> {
    match request {
        Some(r) => Some(r@),
        None => None,
    }
}

/// The request for a count that is posted to `url`; none where there is no URL.
pub fn count_request(
    url: Option<String>,
    access_token: &str,
    body: CreateMessageParams,
) -> (request: Option<CountRequest>)
    ensures
        request_view(request) == RequestView::posted(text_view(url), access_token@, body@),
{
    match url {
        Some(url) => Some(
            CountRequest {
                url,
                access_token: access_token.to_owned(),
                version_header: "anthropic-version".to_owned(),
                version: "2023-06-01".to_owned(),
                body,
            },
        ),
        None => None,
    }
}

/// The request for a count through a session; none where its endpoint has no
/// place for counts.
pub fn bearer_count_tokens(
    state: &ClaudeCodeState,
    access_token: &str,
    body: CreateMessageParams,
) -> (request: Option<CountRequest>)
    ensures
        request_view(request) == RequestView::counting(state@, access_token@, body@),
{
    count_request(join_url(&state.upstream.endpoint, "v1/messages/count_tokens"), access_token, body)
}

impl CountTask {
    /// The request for the count, once the session has an access token.
    pub fn request(self) -> (request: Option<CountRequest>)
        ensures
            request_view(request) == self@.request(),
    {
        let CountTask { code, body } = self;
        match &code.cookie {
            Some(cookie) => match &cookie.token {
                Some(token) => bearer_count_tokens(&code, &token.access_token, body),
                None => None,
            },
            None => None,
        }
    }
}

/// Where a count stands: what is awaited for it. The request whose tokens are
/// counted is kept until it is posted.
#[derive(Debug)]
pub enum Counting {
    Organization { body: CreateMessageParams },
    Code { body: CreateMessageParams },
    Token { body: CreateMessageParams },
    Reply,
}

/// What a `Counting` holds.
pub enum CountingView {
    Organization(ParamsView),
    Code(ParamsView),
    Token(ParamsView),
    Reply,
}

impl View for Counting {
    type V = CountingView;

    open spec fn view(&self) -> CountingView {
        match self {
            Counting::Organization { body } => CountingView::Organization(body@),
            Counting::Code { body } => CountingView::Code(body@),
            Counting::Token { body } => CountingView::Token(body@),
            Counting::Reply => CountingView::Reply,
        }
    }
}

/// What is to be done for a count. `X` is what the service gives for a code, to
/// be exchanged for a token.
#[derive(Debug)]
pub enum CountAction<X> {
    /// Find the organization of the session.
    FindOrganization { code: ClaudeCodeState },
    /// Get a code for the organization.
    ExchangeCode { code: ClaudeCodeState, organization: String },
    /// Get a token for the code, and leave it in the cookie of the session.
    ExchangeToken { code: ClaudeCodeState, exchange: X },
    /// Post the request through the client.
    Post { client: ClientId, request: CountRequest },
}

/// What a `CountAction` holds.
pub enum CountActionView<X> {
    FindOrganization(CodeView),
    ExchangeCode(CodeView, Seq<char>),
    ExchangeToken(CodeView, X),
    Post(ClientId, RequestView),
}

impl<X> View for CountAction<X> {
    type V = CountActionView<X>;

    open spec fn view(&self) -> CountActionView<X> {
        match self {
            CountAction::FindOrganization { code } => CountActionView::FindOrganization(code@),
            CountAction::ExchangeCode { code, organization } => CountActionView::ExchangeCode(
                code@,
                organization@,
            ),
            CountAction::ExchangeToken { code, exchange } => CountActionView::ExchangeToken(
                code@,
                *exchange,
            ),
            CountAction::Post { client, request } => CountActionView::Post(*client, request@),
        }
    }
}

/// What came of an action: the session as the call left it, and what the call
/// gave, if it did not fail.
#[derive(Debug)]
pub enum CountOutcome<X> {
    Organization { code: ClaudeCodeState, organization: Option<String> },
    Code { code: ClaudeCodeState, exchange: Option<X> },
    Token { code: ClaudeCodeState, granted: bool },
    Reply { tokens: Option<u32> },
}

/// What a `CountOutcome` holds.
pub enum CountOutcomeView<X> {
    Organization(CodeView, Option<Seq<char>>),
    Code(CodeView, Option<X>),
    Token(CodeView, bool),
    Reply(Option<u32>),
}

impl<X> View for CountOutcome<X> {
    type V = CountOutcomeView<X>;

    open spec fn view(&self) -> CountOutcomeView<X> {
        match self {
            CountOutcome::Organization { code, organization } => CountOutcomeView::Organization(
                code@,
                text_view(*organization),
            ),
            CountOutcome::Code { code, exchange } => CountOutcomeView::Code(code@, *exchange),
            CountOutcome::Token { code, granted } => CountOutcomeView::Token(code@, *granted),
            CountOutcome::Reply { tokens } => CountOutcomeView::Reply(*tokens),
        }
    }
}

/// How a count goes on: with something to be done, or with its result.
#[derive(Debug)]
pub enum CountNext<X> {
    Ask { state: Counting, action: CountAction<X> },
    Counted { tokens: u32 },
}

/// What a `CountNext` holds.
pub enum CountNextView<X> {
    Ask(CountingView, CountActionView<X>),
    Counted(u32),
}

impl<X> View for CountNext<X> {
    type V = CountNextView<X>;

    open spec fn view(&self) -> CountNextView<X> {
        match self {
            CountNext::Ask { state, action } => CountNextView::Ask(state@, action@),
            CountNext::Counted { tokens } => CountNextView::Counted(*tokens),
        }
    }
}

/// What an optional continuation holds.
pub open spec fn next_view<X>(next: Option<CountNext<X>>) -> Option<CountNextView<X>> {
    match next {
        Some(n) => Some(n@),
        None => None,
    }
}

impl TaskView {
    /// The request for the count, once the session has an access token.
    pub open spec fn request(self) -> Option<RequestView> {
        match self.code.access_token() {
            Some(access_token) => RequestView::counting(self.code, access_token, self.body),
            None => None,
        }
    }

    /// A count begins with the organization of the session.
    pub open spec fn begun<X>(self) -> CountNextView<X> {
        CountNextView::Ask(
            CountingView::Organization(self.body),
            CountActionView::FindOrganization(self.code),
        )
    }
}

impl CountingView {
    /// How a count goes on: from the organization to a code, from the code to a
    /// token, from the token to the request, and from its reply to the result.
    /// Whatever fails, or is not what was awaited, ends it with none.
    pub open spec fn next<X>(self, outcome: CountOutcomeView<X>) -> Option<CountNextView<X>> {
        match (self, outcome) {
            (
                CountingView::Organization(body),
                CountOutcomeView::Organization(code, Some(organization)),
            ) => Some(
                CountNextView::Ask(
                    CountingView::Code(body),
                    CountActionView::ExchangeCode(code, organization),
                ),
            ),
            (CountingView::Code(body), CountOutcomeView::Code(code, Some(exchange))) => Some(
                CountNextView::Ask(
                    CountingView::Token(body),
                    CountActionView::ExchangeToken(code, exchange),
                ),
            ),
            (CountingView::Token(body), CountOutcomeView::Token(code, true)) => match (TaskView {
                code,
                body,
            }).request() {
                Some(request) => Some(
                    CountNextView::Ask(
                        CountingView::Reply,
                        CountActionView::Post(code.upstream.client, request),
                    ),
                ),
                None => None,
            },
            (CountingView::Reply, CountOutcomeView::Reply(Some(tokens))) => Some(
                CountNextView::Counted(tokens),
            ),
            _ => None,
        }
    }
}

impl CountTask {
    /// Begins the count, with the organization of the session.
    pub fn begin<X>(self) -> (next: CountNext<X>)
        ensures
            next@ == self@.begun::<X>(),
    {
        let CountTask { code, body } = self;
        CountNext::Ask {
            state: Counting::Organization { body },
            action: CountAction::FindOrganization { code },
        }
    }
}

impl Counting {
    /// How the count goes on after an outcome. Whatever fails, or is not what was
    /// awaited, ends it with none.
    pub fn advance<X>(self, outcome: CountOutcome<X>) -> (next: Option<CountNext<X>>)
        ensures
            next_view(next) == self@.next(outcome@),
    {
        match (self, outcome) {
            (
                Counting::Organization { body },
                CountOutcome::Organization { code, organization: Some(organization) },
            ) => Some(
                CountNext::Ask {
                    state: Counting::Code { body },
                    action: CountAction::ExchangeCode { code, organization },
                },
            ),
            (
                Counting::Code { body },
                CountOutcome::Code { code, exchange: Some(exchange) },
            ) => Some(
                CountNext::Ask {
                    state: Counting::Token { body },
                    action: CountAction::ExchangeToken { code, exchange },
                },
            ),
            (Counting::Token { body }, CountOutcome::Token { code, granted: true }) => {
                let client = code.upstream.client;
                match (CountTask { code, body }).request() {
                    Some(request) => Some(
                        CountNext::Ask {
                            state: Counting::Reply,
                            action: CountAction::Post { client, request },
                        },
                    ),
                    None => None,
                }
            },
            (Counting::Reply, CountOutcome::Reply { tokens: Some(tokens) }) => Some(
                CountNext::Counted { tokens },
            ),
            _ => None,
        }
    }
}

} // verus!
