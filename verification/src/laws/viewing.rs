//! What the views of values hold: everything that the values do.
use crate::count::{
    next_view, request_view, CountAction, CountActionView, CountNext, CountNextView, CountOutcome,
    CountOutcomeView, CountRequest, CountTask, Counting, CountingView,
};
use crate::event::{fields_view, BlockFields, EventFields, OutgoingEvent, StreamEvent};
use crate::json::json_of;
use crate::message::{
    BlockContents, ContentBlock, ContentView, CreateMessageParams, CreateMessageResponse, Message,
    MessageContent,
};
use crate::relay::{outgoing_view, EventRelay};
use crate::reply::{
    actions_view, events_view, ActionView, InputView, PhaseView, ReplyAction, ReplyInput,
    ReplyPhase, ReplySetup,
};
use crate::session::{cookie_view, ClaudeCodeState, ClaudeWebState, CookieStatus, Upstream};
use crate::text::text_view;
use crate::tool_call::ids_view;
use vstd::prelude::*;

verus! {

/// An optional text is there if it is there, and is that text.
pub proof fn texts_are_seen(text: String)
    ensures
        text_view(Some(text)) == Some(text@),
        text_view(None) is None,
{
}

/// Of an event that comes, everything is seen.
pub proof fn events_are_seen_whole(event: StreamEvent)
    ensures
        event@.event == event.event@,
        event@.id == event.id@,
        event@.data == event.data@,
        event@.retry_ms == event.retry_ms,
        event.completion matches Some(text) ==> event@.completion == Some(text@),
        event.completion is None ==> event@.completion is None,
{
}

/// Of an event that goes to the client, everything is seen.
pub proof fn outgoing_events_are_seen_whole(event: OutgoingEvent)
    ensures
        event@.event == event.event@,
        event.id matches Some(id) ==> event@.id == Some(id@),
        event.id is None ==> event@.id is None,
        event@.data == event.data@,
        event@.retry_ms == event.retry_ms,
{
}

/// Of what an event says, everything is seen.
pub proof fn fields_are_seen_whole(fields: EventFields, block: BlockFields)
    ensures
        fields@.event_type == fields.event_type@,
        fields@.index == fields.index,
        fields.block matches Some(b) ==> fields@.block == Some(b@),
        fields.block is None ==> fields@.block is None,
        fields_view(Some(fields)) == Some(fields@),
        fields_view(None) is None,
        block@.block_type == block.block_type@,
        block@.name == block.name@,
        block@.id == block.id@,
        block@.has_message == block.has_message,
        block@.has_integration_name == block.has_integration_name,
{
}

/// Of a relay, everything is seen.
pub proof fn relays_are_seen_whole(relay: EventRelay)
    ensures
        relay@.has_tools == relay.has_tools,
        relay@.input_tokens == relay.input_tokens,
        relay@.text == relay.text@,
        relay.tool_use_id matches Some(id) ==> relay@.tool_use_id == Some(id@),
        relay.tool_use_id is None ==> relay@.tool_use_id is None,
        relay@.tool_use_index == relay.tool_use_index,
        relay@.suppressed_indices == relay.suppressed_indices@,
        relay@.tool_call_break == relay.tool_call_break,
{
}

/// Of the setup of a reply and of where it stands, everything is seen.
pub proof fn replies_are_seen_whole(setup: ReplySetup, phase: ReplyPhase)
    ensures
        setup@.precise == setup.precise,
        setup@.usage == setup.usage,
        setup@.has_cookie == setup.has_cookie,
        setup@.has_tools == setup.has_tools,
        setup.model matches Some(model) ==> setup@.model == Some(model@),
        setup.model is None ==> setup@.model is None,
        match phase {
            ReplyPhase::CountingStreamInput => phase@ is CountingStreamInput,
            ReplyPhase::Relaying { relay } => phase@ == PhaseView::Relaying(relay@),
            ReplyPhase::Merging => phase@ is Merging,
            ReplyPhase::CountingTextInput { text } => phase@ == PhaseView::CountingTextInput(text@),
            ReplyPhase::CountingOutput { text, input_tokens, whole } => phase@
                == (PhaseView::CountingOutput { text: text@, input_tokens, whole }),
            ReplyPhase::Estimating { text, input_tokens, whole } => phase@
                == (PhaseView::Estimating { text: text@, input_tokens, whole }),
            ReplyPhase::Finished => phase@ is Finished,
        },
{
}

/// Of what is handed to a reply, everything is seen.
pub proof fn inputs_are_seen_whole(input: ReplyInput)
    ensures
        match input {
            ReplyInput::InputCounted { tokens } => input@ == InputView::InputCounted(tokens),
            ReplyInput::Event { event, fields: Some(fields) } => input@ == InputView::Event(
                event@,
                Some(fields@),
            ),
            ReplyInput::Event { event, fields: None } => input@ == InputView::Event(event@, None),
            ReplyInput::End => input@ is End,
            ReplyInput::Merged { text } => input@ == InputView::Merged(text@),
            ReplyInput::Failed => input@ is Failed,
            ReplyInput::OutputCounted { tokens } => input@ == InputView::OutputCounted(tokens),
            ReplyInput::Estimated { estimate } => input@ == InputView::Estimated(estimate),
        },
{
}

/// Of what a reply asks for, everything is seen.
pub proof fn actions_are_seen_whole(action: ReplyAction)
    ensures
        match action {
            ReplyAction::CountInput => action@ is CountInput,
            ReplyAction::Next => action@ is Next,
            ReplyAction::Merge => action@ is Merge,
            ReplyAction::Send { event } => action@ == ActionView::Send(event@),
            ReplyAction::Register { tool_use_id } => action@ == ActionView::Register(tool_use_id@),
            ReplyAction::CountOutput { model, text } => action@ == (ActionView::CountOutput {
                model: model@,
                text: text@,
            }),
            ReplyAction::Estimate { response } => action@ == ActionView::Estimate(response@),
            ReplyAction::Record { input_tokens, output_tokens, family } => action@
                == (ActionView::Record { input_tokens, output_tokens, family }),
            ReplyAction::Persist { input_tokens, output_tokens } => action@
                == (ActionView::Persist { input_tokens, output_tokens }),
            ReplyAction::Respond { response } => action@ == ActionView::Respond(response@),
            ReplyAction::Finish => action@ is Finish,
            ReplyAction::Fail => action@ is Fail,
        },
{
}

/// Of a list every item is seen, in its place, and no other.
pub proof fn lists_are_seen_item_by_item(
    events: Seq<StreamEvent>,
    outgoing: Seq<OutgoingEvent>,
    actions: Seq<ReplyAction>,
    ids: Seq<String>,
    at: int,
)
    ensures
        events_view(events).len() == events.len(),
        0 <= at < events.len() ==> events_view(events)[at] == events[at]@,
        outgoing_view(outgoing).len() == outgoing.len(),
        0 <= at < outgoing.len() ==> outgoing_view(outgoing)[at] == outgoing[at]@,
        actions_view(actions).len() == actions.len(),
        0 <= at < actions.len() ==> actions_view(actions)[at] == actions[at]@,
        ids_view(ids).len() == ids.len(),
        0 <= at < ids.len() ==> ids_view(ids)[at] == ids[at]@,
{
}

/// Of a block and of a message, everything is seen.
pub proof fn messages_are_seen_whole(block: ContentBlock, message: Message, at: int)
    ensures
        match block {
            ContentBlock::Text { text } => block@ == BlockContents::Text(text@),
            ContentBlock::ToolResult { tool_use_id, content, is_error, rest } => block@
                == (BlockContents::ToolResult {
                tool_use_id: tool_use_id@,
                content: json_of(content),
                is_error,
                rest: json_of(rest),
            }),
            ContentBlock::Other { block: other } => block@ == BlockContents::Other(json_of(other)),
        },
        message@.role == message.role,
        match message.content {
            MessageContent::Text { content } => message@.content == ContentView::Text(content@),
            MessageContent::Blocks { content } => message@.content matches ContentView::Blocks(
                blocks,
            ) && blocks.len() == content@.len() && (0 <= at < blocks.len() ==> blocks[at]
                == content@[at]@),
        },
{
}

/// Of a request, everything is seen.
pub proof fn requests_are_seen_whole(params: CreateMessageParams, at: int)
    ensures
        params@.model == params.model@,
        params@.messages.len() == params.messages@.len(),
        0 <= at < params.messages@.len() ==> params@.messages[at] == params.messages@[at]@,
        params@.stream == params.stream,
        params.tools matches Some(tools) ==> (params@.tools matches Some(seen) && seen.len()
            == tools@.len() && (0 <= at < seen.len() ==> seen[at] == json_of(tools@[at]))),
        params.tools is None ==> params@.tools is None,
        params.thinking matches Some(thinking) ==> params@.thinking == Some(json_of(thinking)),
        params.thinking is None ==> params@.thinking is None,
        params@.rest == json_of(params.rest),
{
}

/// Of an answer, everything is seen.
pub proof fn answers_are_seen_whole(response: CreateMessageResponse, at: int)
    ensures
        response@.content.len() == response.content@.len(),
        0 <= at < response.content@.len() ==> response@.content[at] == response.content@[at]@,
        response@.model == response.model@,
        response@.usage == response.usage,
{
}

/// Of a cookie and of the way upstream, everything is seen.
pub proof fn ways_are_seen_whole(cookie: CookieStatus, upstream: Upstream)
    ensures
        cookie@.cookie == cookie.cookie@,
        cookie.token matches Some(token) ==> cookie@.token == Some(token.access_token@),
        cookie.token is None ==> cookie@.token is None,
        cookie_view(Some(cookie)) == Some(cookie@),
        cookie_view(None) is None,
        upstream@.endpoint == upstream.endpoint@,
        upstream.proxy matches Some(proxy) ==> upstream@.proxy == Some(proxy@),
        upstream.proxy is None ==> upstream@.proxy is None,
        upstream@.client == upstream.client,
{
}

/// Of a session, everything is seen.
pub proof fn sessions_are_seen_whole(web: ClaudeWebState, code: ClaudeCodeState)
    ensures
        web@.cookie_actor_handle == web.cookie_actor_handle,
        web.cookie matches Some(cookie) ==> web@.cookie == Some(cookie@),
        web.cookie is None ==> web@.cookie is None,
        web@.upstream == web.upstream@,
        web@.api_format == web.api_format,
        web@.stream == web.stream,
        web@.usage == web.usage,
        web.last_params matches Some(params) ==> web@.last_params == Some(params@),
        web.last_params is None ==> web@.last_params is None,
        web@.rest == json_of(web.rest),
        code@.cookie_actor_handle == code.cookie_actor_handle,
        code.cookie matches Some(cookie) ==> code@.cookie == Some(cookie@),
        code.cookie is None ==> code@.cookie is None,
        code.cookie_header matches Some(bytes) ==> code@.cookie_header == Some(bytes@),
        code.cookie_header is None ==> code@.cookie_header is None,
        code@.upstream == code.upstream@,
        code@.api_format == code.api_format,
        code@.stream == code.stream,
        code@.system_prompt_hash == code.system_prompt_hash,
        code.anthropic_beta_header matches Some(beta) ==> code@.anthropic_beta_header == Some(
            beta@,
        ),
        code.anthropic_beta_header is None ==> code@.anthropic_beta_header is None,
        code@.usage == code.usage,
{
}

/// Of a count and of the request for it, everything is seen.
pub proof fn counts_are_seen_whole(task: CountTask, request: CountRequest, state: Counting)
    ensures
        task@.code == task.code@,
        task@.body == task.body@,
        request@.url == request.url@,
        request@.access_token == request.access_token@,
        request@.version_header == request.version_header@,
        request@.version == request.version@,
        request@.body == request.body@,
        request_view(Some(request)) == Some(request@),
        request_view(None) is None,
        match state {
            Counting::Organization { body } => state@ == CountingView::Organization(body@),
            Counting::Code { body } => state@ == CountingView::Code(body@),
            Counting::Token { body } => state@ == CountingView::Token(body@),
            Counting::Reply => state@ is Reply,
        },
{
}

/// Of the exchanges of a count, everything is seen.
pub proof fn exchanges_are_seen_whole<X>(
    action: CountAction<X>,
    outcome: CountOutcome<X>,
    next: CountNext<X>,
)
    ensures
        match action {
            CountAction::FindOrganization { code } => action@
                == CountActionView::<X>::FindOrganization(code@),
            CountAction::ExchangeCode { code, organization } => action@
                == CountActionView::<X>::ExchangeCode(code@, organization@),
            CountAction::ExchangeToken { code, exchange } => action@
                == CountActionView::ExchangeToken(code@, exchange),
            CountAction::Post { client, request } => action@ == CountActionView::<X>::Post(
                client,
                request@,
            ),
        },
        match outcome {
            CountOutcome::Organization { code, organization: Some(found) } => outcome@
                == CountOutcomeView::<X>::Organization(code@, Some(found@)),
            CountOutcome::Organization { code, organization: None } => outcome@
                == CountOutcomeView::<X>::Organization(code@, None),
            CountOutcome::Code { code, exchange } => outcome@ == CountOutcomeView::Code(
                code@,
                exchange,
            ),
            CountOutcome::Token { code, granted } => outcome@ == CountOutcomeView::<X>::Token(
                code@,
                granted,
            ),
            CountOutcome::Reply { tokens } => outcome@ == CountOutcomeView::<X>::Reply(tokens),
        },
        match next {
            CountNext::Ask { state, action } => next@ == CountNextView::Ask(state@, action@),
            CountNext::Counted { tokens } => next@ == CountNextView::<X>::Counted(tokens),
        },
        next_view(Some(next)) == Some(next@),
        next_view(None::<CountNext<X>>) is None,
{
}

} // verus!
