//! Sessions with the upstream services: the web service, and the code service
//! that counts tokens.
use crate::context::ClaudeApiFormat;
use crate::json::{json_of, new_fields, object_value, JsonView};
use crate::message::{CreateMessageParams, ParamsView, Usage};
use crate::text::{copy_text, text_view};
use vstd::prelude::*;

verus! {

/// Names the actor that hands out cookies.
#[derive(Clone, Copy, Debug, PartialEq, Eq, Structural)]
pub struct CookieActorHandle {
    pub id: u64,
}

/// Names the HTTP client that a session goes through.
#[derive(Clone, Copy, Debug, PartialEq, Eq, Structural)]
pub struct ClientId {
    pub id: u64,
}

/// An access token of the code service.
#[derive(Debug)]
pub struct TokenInfo {
    pub access_token: String,
}

/// A cookie as it is sent, with the token that was got for it.
#[derive(Debug)]
pub struct CookieStatus {
    pub cookie: String,
    pub token: Option<TokenInfo>,
}

/// What a `CookieStatus` holds. The token stands by its text.
#[verifier::ext_equal]
pub struct CookieView {
    pub cookie: Seq<char>,
    pub token: Option<Seq<char>>,
}

impl View for CookieStatus {
    type V = CookieView;

    open spec fn view(&self) -> CookieView {
        CookieView {
            cookie: self.cookie@,
            token: match self.token {
                Some(token) => Some(token.access_token@),
                None => None,
            },
        }
    }
}

impl Clone for CookieStatus {
    fn clone(&self) -> (copy: Self)
        ensures
            copy@ == self@,
    {
        CookieStatus {
            cookie: self.cookie.clone(),
            token: match &self.token {
                Some(token) => Some(TokenInfo { access_token: token.access_token.clone() }),
                None => None,
            },
        }
    }
}

/// What an optional cookie holds.
pub open spec fn cookie_view(cookie: Option<CookieStatus>) -> Option<CookieView> {
    match cookie {
        Some(c) => Some(c@),
        None => None,
    }
}

/// Copies an optional cookie.
pub(crate) fn copy_cookie(cookie: &Option<CookieStatus>) -> (copy: Option<CookieStatus>)
    ensures
        cookie_view(copy) == cookie_view(*cookie),
{
    match cookie {
        Some(c) => Some(c.clone()),
        None => None,
    }
}

/// Where the upstream service is, and the way to it.
#[derive(Debug)]
pub struct Upstream {
    pub endpoint: String,
    pub proxy: Option<String>,
    pub client: ClientId,
}

/// What an `Upstream` holds.
#[verifier::ext_equal]
pub struct UpstreamView {
    pub endpoint: Seq<char>,
    pub proxy: Option<Seq<char>>,
    pub client: ClientId,
}

impl View for Upstream {
    type V = UpstreamView;

    open spec fn view(&self) -> UpstreamView {
        UpstreamView {
            endpoint: self.endpoint@,
            proxy: text_view(self.proxy),
            client: self.client,
        }
    }
}

impl Clone for Upstream {
    fn clone(&self) -> (copy: Self)
        ensures
            copy@ == self@,
    {
        Upstream {
            endpoint: self.endpoint.clone(),
            proxy: copy_text(&self.proxy),
            client: self.client,
        }
    }
}

/// A session with the web service. What it holds besides, such as the
/// conversation that it is in, is carried in `rest`.
#[derive(Debug)]
pub struct ClaudeWebState {
    pub cookie_actor_handle: CookieActorHandle,
    pub cookie: Option<CookieStatus>,
    pub upstream: Upstream,
    pub api_format: ClaudeApiFormat,
    pub stream: bool,
    pub usage: Usage,
    pub last_params: Option<CreateMessageParams>,
    pub rest: serde_json::Value,
}

/// What a `ClaudeWebState` holds.
#[verifier::ext_equal]
pub struct WebView {
    pub cookie_actor_handle: CookieActorHandle,
    pub cookie: Option<CookieView>,
    pub upstream: UpstreamView,
    pub api_format: ClaudeApiFormat,
    pub stream: bool,
    pub usage: Usage,
    pub last_params: Option<ParamsView>,
    pub rest: JsonView,
}

impl View for ClaudeWebState {
    type V = WebView;

    open spec fn view(&self) -> WebView {
        WebView {
            cookie_actor_handle: self.cookie_actor_handle,
            cookie: cookie_view(self.cookie),
            upstream: self.upstream@,
            api_format: self.api_format,
            stream: self.stream,
            usage: self.usage,
            last_params: match self.last_params {
                Some(params) => Some(params@),
                None => None,
            },
            rest: json_of(self.rest),
        }
    }
}

impl Clone for ClaudeWebState {
    fn clone(&self) -> (copy: Self)
        ensures
            copy@ == self@,
    {
        ClaudeWebState {
            cookie_actor_handle: self.cookie_actor_handle,
            cookie: copy_cookie(&self.cookie),
            upstream: self.upstream.clone(),
            api_format: self.api_format,
            stream: self.stream,
            usage: self.usage,
            last_params: match &self.last_params {
                Some(params) => Some(params.clone()),
                None => None,
            },
            rest: self.rest.clone(),
        }
    }
}

impl WebView {
    /// A session that has not been used yet.
    pub open spec fn unused(handle: CookieActorHandle, upstream: UpstreamView) -> WebView {
        WebView {
            cookie_actor_handle: handle,
            cookie: None,
            upstream,
            api_format: ClaudeApiFormat::Claude,
            stream: false,
            usage: Usage { input_tokens: 0, output_tokens: 0 },
            last_params: None,
            rest: JsonView::Object(Map::empty()),
        }
    }
}

impl ClaudeWebState {
    /// A session that has not been used yet.
    pub fn new(cookie_actor_handle: CookieActorHandle, upstream: Upstream) -> (state: Self)
        ensures
            state@ == WebView::unused(cookie_actor_handle, upstream@),
    {
        ClaudeWebState {
            cookie_actor_handle,
            cookie: None,
            upstream,
            api_format: ClaudeApiFormat::Claude,
            stream: false,
            usage: Usage { input_tokens: 0, output_tokens: 0 },
            last_params: None,
            rest: object_value(new_fields()),
        }
    }
}

/// A session with the code service. `cookie_header` holds the bytes of the
/// cookie header, once it is set.
#[derive(Debug)]
pub struct ClaudeCodeState {
    pub cookie_actor_handle: CookieActorHandle,
    pub cookie: Option<CookieStatus>,
    pub cookie_header: Option<Vec<u8>>,
    pub upstream: Upstream,
    pub api_format: ClaudeApiFormat,
    pub stream: bool,
    pub system_prompt_hash: Option<u64>,
    pub anthropic_beta_header: Option<String>,
    pub usage: Usage,
}

/// What a `ClaudeCodeState` holds.
#[verifier::ext_equal]
pub struct CodeView {
    pub cookie_actor_handle: CookieActorHandle,
    pub cookie: Option<CookieView>,
    pub cookie_header: Option<Seq<u8>>,
    pub upstream: UpstreamView,
    pub api_format: ClaudeApiFormat,
    pub stream: bool,
    pub system_prompt_hash: Option<u64>,
    pub anthropic_beta_header: Option<Seq<char>>,
    pub usage: Usage,
}

impl View for ClaudeCodeState {
    type V = CodeView;

    open spec fn view(&self) -> CodeView {
        CodeView {
            cookie_actor_handle: self.cookie_actor_handle,
            cookie: cookie_view(self.cookie),
            cookie_header: match self.cookie_header {
                Some(bytes) => Some(bytes@),
                None => None,
            },
            upstream: self.upstream@,
            api_format: self.api_format,
            stream: self.stream,
            system_prompt_hash: self.system_prompt_hash,
            anthropic_beta_header: text_view(self.anthropic_beta_header),
            usage: self.usage,
        }
    }
}

impl CodeView {
    /// A session that has not been used yet.
    pub open spec fn unused(handle: CookieActorHandle, upstream: UpstreamView) -> CodeView {
        CodeView {
            cookie_actor_handle: handle,
            cookie: None,
            cookie_header: None,
            upstream,
            api_format: ClaudeApiFormat::Claude,
            stream: false,
            system_prompt_hash: None,
            anthropic_beta_header: None,
            usage: Usage { input_tokens: 0, output_tokens: 0 },
        }
    }
}

impl ClaudeCodeState {
    /// A session that has not been used yet.
    pub fn new(cookie_actor_handle: CookieActorHandle, upstream: Upstream) -> (state: Self)
        ensures
            state@ == CodeView::unused(cookie_actor_handle, upstream@),
    {
        ClaudeCodeState {
            cookie_actor_handle,
            cookie: None,
            cookie_header: None,
            upstream,
            api_format: ClaudeApiFormat::Claude,
            stream: false,
            system_prompt_hash: None,
            anthropic_beta_header: None,
            usage: Usage { input_tokens: 0, output_tokens: 0 },
        }
    }
}

} // verus!
