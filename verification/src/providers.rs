//! The providers that requests are handed to, and what each makes of one.
use crate::context::{BadRequestReason, ClaudeContext, ClewdrError};
use crate::message::{CreateMessageParams, ParamsView};
use crate::session::{
    ClaudeCodeState, ClaudeWebState, CodeView, CookieActorHandle, Upstream, WebView,
};
use crate::text::copy_text;
use crate::tool_call::{ToolCallManager, ToolCallState};
use crate::tool_result::{build_tool_result_payload, extract_tool_result_id};
use std::sync::Arc;
use vstd::prelude::*;

verus! {

/// What is asked for.
#[derive(Clone, Copy, Debug, PartialEq, Eq, Structural)]
pub enum ClaudeOperation {
    Messages,
    CountTokens,
}

/// A request as it is handed to a provider.
#[derive(Clone, Debug)]
pub struct ClaudeInvocation {
    pub params: CreateMessageParams,
    pub context: ClaudeContext,
    pub operation: ClaudeOperation,
}

impl ClaudeInvocation {
    /// Asks for a reply.
    pub fn messages(params: CreateMessageParams, context: ClaudeContext) -> (invocation: Self)
        ensures
            invocation == (ClaudeInvocation {
                params,
                context,
                operation: ClaudeOperation::Messages,
            }),
    {
        Self { params, context, operation: ClaudeOperation::Messages }
    }

    /// Asks how many tokens the request has.
    pub fn count_tokens(params: CreateMessageParams, context: ClaudeContext) -> (invocation: Self)
        ensures
            invocation == (ClaudeInvocation {
                params,
                context,
                operation: ClaudeOperation::CountTokens,
            }),
    {
        Self { params, context, operation: ClaudeOperation::CountTokens }
    }
}

/// What the providers have in common.
#[derive(Debug)]
struct ClaudeSharedState {
    cookie_actor_handle: CookieActorHandle,
}

impl ClaudeSharedState {
    fn new(cookie_actor_handle: CookieActorHandle) -> (shared: Self)
        ensures
            shared.cookie_actor_handle == cookie_actor_handle,
    {
        Self { cookie_actor_handle }
    }
}

/// The provider that goes through the web service.
#[derive(Debug)]
pub struct ClaudeWebProvider {
    shared: Arc<ClaudeSharedState>,
}

/// The provider that goes through the code service.
#[derive(Debug)]
pub struct ClaudeCodeProvider {
    shared: Arc<ClaudeSharedState>,
}

/// Both providers.
#[derive(Debug)]
pub struct ClaudeProviders {
    web: Arc<ClaudeWebProvider>,
    code: Arc<ClaudeCodeProvider>,
}

impl ClaudeProviders {
    /// The provider that goes through the web service.
    pub closed spec fn web_view(self) -> ClaudeWebProvider {
        *self.web
    }

    /// The provider that goes through the code service.
    pub closed spec fn code_view(self) -> ClaudeCodeProvider {
        *self.code
    }

    /// Providers that get their cookies from one actor.
    pub fn new(cookie_actor_handle: CookieActorHandle) -> (providers: Self)
        ensures
            providers.web_view().handle() == cookie_actor_handle,
            providers.code_view().handle() == cookie_actor_handle,
    {
        let shared = Arc::new(ClaudeSharedState::new(cookie_actor_handle));
        let web = Arc::new(ClaudeWebProvider::new(shared.clone()));
        let code = Arc::new(ClaudeCodeProvider::new(shared.clone()));
        Self { web, code }
    }

    /// The provider that goes through the web service.
    pub fn web(&self) -> (web: Arc<ClaudeWebProvider>)
        ensures
            *web == self.web_view(),
    {
        self.web.clone()
    }

    /// The provider that goes through the code service.
    pub fn code(&self) -> (code: Arc<ClaudeCodeProvider>)
        ensures
            *code == self.code_view(),
    {
        self.code.clone()
    }
}

impl Clone for ClaudeProviders {
    /// A copy with the same two providers.
    fn clone(&self) -> (copy: Self)
        ensures
            copy.web_view() == self.web_view(),
            copy.code_view() == self.code_view(),
    {
        Self { web: self.web.clone(), code: self.code.clone() }
    }
}

impl Clone for ClaudeWebProvider {
    /// A copy that gets its cookies from the same actor.
    fn clone(&self) -> (copy: Self)
        ensures
            copy.handle() == self.handle(),
    {
        Self { shared: self.shared.clone() }
    }
}

impl Clone for ClaudeCodeProvider {
    /// A copy that gets its cookies from the same actor.
    fn clone(&self) -> (copy: Self)
        ensures
            copy.handle() == self.handle(),
    {
        Self { shared: self.shared.clone() }
    }
}

/// Providers that get their cookies from one actor.
pub fn build_providers(cookie_actor_handle: CookieActorHandle) -> (providers: ClaudeProviders)
    ensures
        providers.web_view().handle() == cookie_actor_handle,
        providers.code_view().handle() == cookie_actor_handle,
{
    ClaudeProviders::new(cookie_actor_handle)
}

/// What the web provider is to do for a request.
#[derive(Debug)]
pub enum WebTask {
    /// Send the result of a tool through the session that waits for it.
    SendToolResult { session: ClaudeWebState, payload: serde_json::Value, context: ClaudeContext },
    /// Start a chat.
    Chat { state: ClaudeWebState, params: CreateMessageParams, context: ClaudeContext },
}

/// What the code provider is to do for a request.
#[derive(Debug)]
pub enum CodeTask {
    /// Start a chat.
    Chat { state: ClaudeCodeState, params: CreateMessageParams, context: ClaudeContext },
    /// Count the tokens of the request, which came in by the web API or not.
    CountTokens {
        state: ClaudeCodeState,
        params: CreateMessageParams,
        for_web: bool,
        context: ClaudeContext,
    },
}

impl WebView {
    /// The session, set up for a request in `context`.
    pub open spec fn serving(self, context: ClaudeContext) -> WebView {
        WebView {
            stream: context.stream,
            api_format: context.api_format,
            usage: context.usage,
            ..self
        }
    }

    /// The session, set up for sending the tool result in `params`.
    pub open spec fn resuming(self, context: ClaudeContext, params: ParamsView) -> WebView {
        WebView { last_params: Some(params), ..self.serving(context) }
    }
}

impl CodeView {
    /// The session, set up for a request in `context`.
    pub open spec fn serving(self, context: ClaudeContext) -> CodeView {
        CodeView {
            api_format: context.api_format,
            stream: context.stream,
            system_prompt_hash: context.system_prompt_hash,
            anthropic_beta_header: crate::text::text_view(context.anthropic_beta),
            usage: context.usage,
            ..self
        }
    }
}

impl ClaudeInvocation {
    /// The pending tool call that the request answers.
    pub open spec fn resumes(self, pending: Map<Seq<char>, ToolCallState>) -> Option<Seq<char>> {
        match self.params@.answered_tool() {
            Some(id) => if self.operation == ClaudeOperation::Messages && pending.contains_key(id) {
                Some(id)
            } else {
                None
            },
            None => None,
        }
    }
}

impl ClaudeWebProvider {
    /// The actor that the provider gets its cookies from.
    pub closed spec fn handle(self) -> CookieActorHandle {
        self.shared.cookie_actor_handle
    }

    fn new(shared: Arc<ClaudeSharedState>) -> (provider: Self)
        ensures
            provider.handle() == shared.cookie_actor_handle,
    {
        Self { shared }
    }

    /// Decides what is to be done for a request. The web service cannot count
    /// tokens. A request that answers a pending tool call goes on in the session
    /// of that call, which is pending no more; any other starts a chat.
    pub fn invoke(
        &self,
        request: ClaudeInvocation,
        upstream: Upstream,
        pending: &mut ToolCallManager,
    ) -> (task: Result<WebTask, ClewdrError>)
        ensures
            task is Err <==> request.operation == ClaudeOperation::CountTokens,
            task matches Err(error) ==> error == (ClewdrError::BadRequest {
                reason: BadRequestReason::UnsupportedOperation,
            }),
            task matches Ok(WebTask::SendToolResult { session, payload, context }) ==> ({
                &&& request.resumes(old(pending)@) matches Some(id)
                &&& session@ == old(pending)@[id].session@.resuming(
                    request.context,
                    request.params@,
                )
                &&& crate::json::json_of(payload) == crate::tool_result::result_payload(
                    request.params@.tool_result(),
                )
                &&& context == request.context
            }),
            task matches Ok(WebTask::Chat { state, params, context }) ==> ({
                &&& request.resumes(old(pending)@) is None
                &&& state@ == WebView::unused(self.handle(), upstream@).serving(request.context)
                &&& params == request.params
                &&& context == request.context
            }),
            final(pending)@ == match request.resumes(old(pending)@) {
                Some(id) => old(pending)@.remove(id),
                None => old(pending)@,
            },
    {
        let mut state = ClaudeWebState::new(self.shared.cookie_actor_handle, upstream);
        let ClaudeInvocation { params, context, operation } = request;
        state.api_format = context.api_format;
        state.stream = context.stream;
        state.usage = context.usage;
        if operation != ClaudeOperation::Messages {
            return Err(
                ClewdrError::BadRequest { reason: BadRequestReason::UnsupportedOperation },
            );
        }
        if let Some(tool_use_id) = extract_tool_result_id(&params) {
            let ghost before = pending@;
            if let Some(tool_state) = pending.take(&tool_use_id) {
                let mut session = tool_state.session;
                session.stream = context.stream;
                session.api_format = context.api_format;
                session.usage = context.usage;
                session.last_params = Some(params.clone());
                let payload = build_tool_result_payload(&params);
                return Ok(WebTask::SendToolResult { session, payload, context });
            }
            assert(before.remove(tool_use_id@) =~= before);
        }
        Ok(WebTask::Chat { state, params, context })
    }
}

impl ClaudeCodeProvider {
    /// The actor that the provider gets its cookies from.
    pub closed spec fn handle(self) -> CookieActorHandle {
        self.shared.cookie_actor_handle
    }

    fn new(shared: Arc<ClaudeSharedState>) -> (provider: Self)
        ensures
            provider.handle() == shared.cookie_actor_handle,
    {
        Self { shared }
    }

    /// Decides what is to be done for a request: a chat, or a count of its
    /// tokens.
    pub fn invoke(&self, request: ClaudeInvocation, upstream: Upstream) -> (task: CodeTask)
        ensures
            match task {
                CodeTask::Chat { state, params, context } => {
                    &&& request.operation == ClaudeOperation::Messages
                    &&& state@ == CodeView::unused(self.handle(), upstream@).serving(
                        request.context,
                    )
                    &&& params == request.params
                    &&& context == request.context
                },
                CodeTask::CountTokens { state, params, for_web, context } => {
                    &&& request.operation == ClaudeOperation::CountTokens
                    &&& state@ == CodeView::unused(self.handle(), upstream@).serving(
                        request.context,
                    )
                    &&& params == request.params
                    &&& for_web == request.context.web
                    &&& context == request.context
                },
            },
    {
        let mut state = ClaudeCodeState::new(self.shared.cookie_actor_handle, upstream);
        let ClaudeInvocation { params, context, operation } = request;
        state.api_format = context.api_format;
        state.stream = context.stream;
        state.system_prompt_hash = context.system_prompt_hash;
        state.anthropic_beta_header = copy_text(&context.anthropic_beta);
        state.usage = context.usage;
        match operation {
            ClaudeOperation::Messages => CodeTask::Chat { state, params, context },
            ClaudeOperation::CountTokens => {
                let for_web = context.web;
                CodeTask::CountTokens { state, params, for_web, context }
            },
        }
    }
}

} // verus!
