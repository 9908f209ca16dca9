//! What becomes of a request that brings the result of a tool: which tool it
//! answers, what is sent for it, and the session that it goes on in.
use crate::context::{BadRequestReason, ClaudeContext, ClewdrError};
use crate::json::JsonView;
use crate::message::{BlockContents, ContentView, ParamsView, Role, Usage};
use crate::providers::{ClaudeInvocation, ClaudeOperation};
use crate::session::{CodeView, CookieActorHandle, UpstreamView, WebView};
use crate::tool_call::{unexpired, waits_for_result, Pending};
use crate::tool_result::{last_result, result_payload};
use vstd::prelude::*;

verus! {

/// The block at `at` is a tool result, and none after it is one.
pub open spec fn is_last_result(blocks: Seq<BlockContents>, at: int) -> bool {
    &&& 0 <= at < blocks.len()
    &&& blocks[at] is ToolResult
    &&& forall|later: int| at < later < blocks.len() ==> (#[trigger] blocks[later]) !is ToolResult
}

/// None of the blocks is a tool result.
pub open spec fn has_no_result(blocks: Seq<BlockContents>) -> bool {
    forall|k: int| 0 <= k < blocks.len() ==> (#[trigger] blocks[k]) !is ToolResult
}

/// Of several tool results the last one is found; where there is none, none is.
pub proof fn the_last_result_is_found(blocks: Seq<BlockContents>, at: int)
    ensures
        is_last_result(blocks, at) ==> last_result(blocks) == Some(blocks[at]),
        has_no_result(blocks) ==> last_result(blocks) is None,
    decreases blocks.len(),
{
    if blocks.len() > 0 {
        let before = blocks.drop_last();
        assert(forall|k: int| 0 <= k < before.len() ==> #[trigger] before[k] == blocks[k]);
        assert(blocks[blocks.len() - 1] == blocks.last());
        the_last_result_is_found(before, at);
    }
}

/// The last message brings the tool result at `at` of its blocks.
pub open spec fn brings_result(params: ParamsView, blocks: Seq<BlockContents>, at: int) -> bool {
    &&& params.messages.len() > 0
    &&& params.messages.last().content == ContentView::Blocks(blocks)
    &&& is_last_result(blocks, at)
}

/// A request whose last message brings a tool result answers the tool use that the
/// result names, if the message is the user's, and none if it is the assistant's.
/// What is sent for it has that tool use, the content as it came, whatever kind of
/// JSON it is, and whether the result says that it is an error; and nothing else.
pub proof fn results_are_sent_as_they_came(
    params: ParamsView,
    blocks: Seq<BlockContents>,
    at: int,
    tool_use_id: Seq<char>,
    content: JsonView,
    is_error: Option<bool>,
    rest: JsonView,
)
    requires
        brings_result(params, blocks, at),
        blocks[at] == (BlockContents::ToolResult { tool_use_id, content, is_error, rest }),
    ensures
        params.tool_result() == Some(blocks[at]),
        params.messages.last().role == Role::User ==> params.answered_tool() == Some(tool_use_id),
        params.messages.last().role == Role::Assistant ==> params.answered_tool() is None,
        ({
            let payload = result_payload(params.tool_result());
            &&& payload.get("type"@) == Some(JsonView::Text("tool_result"@))
            &&& payload.get("tool_use_id"@) == Some(JsonView::Text(tool_use_id))
            &&& payload.get("content"@) == Some(content)
            &&& is_error == Some(true) ==> payload.get("is_error"@) == Some(JsonView::Bool(true))
            &&& is_error != Some(true) ==> payload.get("is_error"@) == Some(JsonView::Bool(false))
            &&& payload matches JsonView::Object(fields) && fields.dom() == set![
                "type"@,
                "tool_use_id"@,
                "content"@,
                "is_error"@,
            ]
        }),
{
    the_last_result_is_found(blocks, at);
    super::payload_keys_differ();
    let fields = result_payload(params.tool_result())->Object_0;
    assert(fields.dom() =~= set!["type"@, "tool_use_id"@, "content"@, "is_error"@]);
}

/// A request whose last message brings no tool result, or that has no message at
/// all, answers no tool use, whatever earlier messages hold; an object without
/// fields is sent for it.
pub proof fn without_a_result_nothing_is_answered(params: ParamsView)
    requires
        params.messages.len() > 0 ==> (params.messages.last().content matches ContentView::Blocks(
            blocks,
        ) ==> has_no_result(blocks)),
    ensures
        params.tool_result() is None,
        params.answered_tool() is None,
        result_payload(params.tool_result()) == JsonView::Object(Map::empty()),
{
    if params.messages.len() > 0 {
        if let ContentView::Blocks(blocks) = params.messages.last().content {
            the_last_result_is_found(blocks, 0);
        }
    }
}

/// Two requests with the same last message answer the same tool use, and the same
/// is sent for them: neither earlier messages nor anything else in them matters.
pub proof fn only_the_last_message_answers(one: ParamsView, other: ParamsView)
    requires
        one.messages.len() > 0,
        other.messages.len() > 0,
        one.messages.last() == other.messages.last(),
    ensures
        one.answered_tool() == other.answered_tool(),
        result_payload(one.tool_result()) == result_payload(other.tool_result()),
{
}

/// A request resumes the tool call that its result names, if that is pending and
/// a reply is asked for; a request for a count never does.
pub proof fn requests_resume_what_they_answer(
    request: ClaudeInvocation,
    pending: Pending,
    blocks: Seq<BlockContents>,
    at: int,
)
    requires
        brings_result(request.params@, blocks, at),
    ensures
        blocks[at] matches BlockContents::ToolResult { tool_use_id, .. } && ({
            let asked = request.operation == ClaudeOperation::Messages
                && request.params@.messages.last().role == Role::User && pending.contains_key(
                tool_use_id,
            );
            &&& asked ==> request.resumes(pending) == Some(tool_use_id)
            &&& !asked ==> request.resumes(pending) is None
        }),
{
    the_last_result_is_found(blocks, at);
}

/// A request without a tool result in its last message resumes nothing.
pub proof fn other_requests_resume_nothing(request: ClaudeInvocation, pending: Pending)
    requires
        request.params@.messages.len() > 0 ==> (
        request.params@.messages.last().content matches ContentView::Blocks(blocks)
            ==> has_no_result(blocks)),
    ensures
        request.resumes(pending) is None,
{
    without_a_result_nothing_is_answered(request.params@);
}

/// A cleanup drops a call exactly if it was registered longer ago than the
/// timeout, and leaves what it keeps as it was. One that has waited for just the
/// timeout is kept.
pub proof fn cleanups_go_by_age(pending: Pending, id: Seq<char>, now: u128, timeout: u128)
    ensures
        unexpired(pending, now, timeout).contains_key(id) <==> pending.contains_key(id) && now
            <= pending[id].created_at + timeout,
        unexpired(pending, now, timeout).contains_key(id) ==> unexpired(pending, now, timeout)[id]
            == pending[id],
        pending.contains_key(id) ==> (pending[id].is_expired(now, timeout) <==> pending[id].created_at
            + timeout < now),
{
}

/// A session that waits under an identifier is there, as it stood and with the
/// time; every other call is there exactly if it was, and as it was.
pub proof fn waiting_leaves_other_calls_alone(
    before: Pending,
    after: Pending,
    id: Seq<char>,
    session: WebView,
    now: u128,
    other: Seq<char>,
)
    requires
        waits_for_result(before, after, id, session, now),
    ensures
        after.contains_key(id),
        after[id].session@ == session,
        after[id].created_at == now,
        other != id ==> (after.contains_key(other) <==> before.contains_key(other)),
        other != id && before.contains_key(other) ==> after[other] == before[other],
{
    assert(after.dom().contains(other) == before.dom().insert(id).contains(other));
    assert(after.dom().contains(id));
}

/// A session set up for a request has the streaming, format and usage of the
/// context, and is otherwise as it was. Set up for a tool result, it has the
/// request as its last one besides.
pub proof fn web_sessions_serve_their_context(
    session: WebView,
    context: ClaudeContext,
    params: ParamsView,
)
    ensures
        session.serving(context) == (WebView {
            cookie_actor_handle: session.cookie_actor_handle,
            cookie: session.cookie,
            upstream: session.upstream,
            api_format: context.api_format,
            stream: context.stream,
            usage: context.usage,
            last_params: session.last_params,
            rest: session.rest,
        }),
        session.resuming(context, params) == (WebView {
            cookie_actor_handle: session.cookie_actor_handle,
            cookie: session.cookie,
            upstream: session.upstream,
            api_format: context.api_format,
            stream: context.stream,
            usage: context.usage,
            last_params: Some(params),
            rest: session.rest,
        }),
{
}

/// A session with the code service that is set up for a request has the
/// streaming, format, prompt hash, beta header and usage of the context, and is
/// otherwise as it was.
pub proof fn code_sessions_serve_their_context(session: CodeView, context: ClaudeContext)
    ensures
        ({
            let serving = session.serving(context);
            &&& serving.cookie_actor_handle == session.cookie_actor_handle
            &&& serving.cookie == session.cookie
            &&& serving.cookie_header == session.cookie_header
            &&& serving.upstream == session.upstream
            &&& serving.api_format == context.api_format
            &&& serving.stream == context.stream
            &&& serving.system_prompt_hash == context.system_prompt_hash
            &&& context.anthropic_beta matches Some(beta) ==> serving.anthropic_beta_header == Some(
                beta@,
            )
            &&& context.anthropic_beta is None ==> serving.anthropic_beta_header is None
            &&& serving.usage == context.usage
        }),
{
}

/// A session that has not been used knows the actor and the way upstream, and
/// nothing else: no cookie, no request, no tokens.
pub proof fn unused_sessions_know_their_way_only(handle: CookieActorHandle, upstream: UpstreamView)
    ensures
        ({
            let web = WebView::unused(handle, upstream);
            &&& web.cookie_actor_handle == handle
            &&& web.upstream == upstream
            &&& web.cookie is None
            &&& web.last_params is None
            &&& web.api_format is Claude
            &&& !web.stream
            &&& web.usage == (Usage { input_tokens: 0, output_tokens: 0 })
            &&& web.rest == JsonView::Object(Map::empty())
        }),
        ({
            let code = CodeView::unused(handle, upstream);
            &&& code.cookie_actor_handle == handle
            &&& code.upstream == upstream
            &&& code.cookie is None
            &&& code.cookie_header is None
            &&& code.api_format is Claude
            &&& !code.stream
            &&& code.system_prompt_hash is None
            &&& code.anthropic_beta_header is None
            &&& code.usage == (Usage { input_tokens: 0, output_tokens: 0 })
        }),
{
}

/// The whole way of a tool call: a session waits for the result; cleanups come and
/// go, none later than the timeout; then the user's message brings the result. The
/// request resumes that call, once. The session goes on with its cookie, its way
/// upstream and all else that it carried, under the context of the new request,
/// which is its last one from then on.
pub proof fn waiting_sessions_go_on(
    before: Pending,
    after: Pending,
    id: Seq<char>,
    session: WebView,
    now: u128,
    later: u128,
    timeout: u128,
    request: ClaudeInvocation,
    blocks: Seq<BlockContents>,
    at: int,
)
    requires
        waits_for_result(before, after, id, session, now),
        later <= now + timeout,
        request.operation == ClaudeOperation::Messages,
        brings_result(request.params@, blocks, at),
        request.params@.messages.last().role == Role::User,
        blocks[at] matches BlockContents::ToolResult { tool_use_id, .. } && tool_use_id == id,
    ensures
        ({
            let kept = unexpired(after, later, timeout);
            let resumed = kept[id].session@.resuming(request.context, request.params@);
            &&& request.resumes(kept) == Some(id)
            &&& request.resumes(kept.remove(id)) is None
            &&& resumed.cookie_actor_handle == session.cookie_actor_handle
            &&& resumed.cookie == session.cookie
            &&& resumed.upstream == session.upstream
            &&& resumed.rest == session.rest
            &&& resumed.stream == request.context.stream
            &&& resumed.api_format == request.context.api_format
            &&& resumed.usage == request.context.usage
            &&& resumed.last_params == Some(request.params@)
        }),
{
    waiting_leaves_other_calls_alone(before, after, id, session, now, id);
    cleanups_go_by_age(after, id, later, timeout);
    the_last_result_is_found(blocks, at);
}

/// A refusal says what is refused, and then the name of the service, whatever that
/// is; refusals by two services say the same only if the names are the same.
pub proof fn refusals_name_the_service(one: Seq<char>, other: Seq<char>)
    ensures
        ({
            let refusal = ClewdrError::BadRequest {
                reason: BadRequestReason::UnsupportedOperation,
            };
            &&& refusal.says(one) == "Unsupported operation for "@ + one
            &&& refusal.says(one) == refusal.says(other) ==> one == other
        }),
{
    let prefix = "Unsupported operation for "@;
    assert((prefix + one).skip(prefix.len() as int) =~= one);
    assert((prefix + other).skip(prefix.len() as int) =~= other);
}

} // verus!
