//! What holds of the gateway as a whole, across its functions.
use crate::count::{
    CountActionView, CountNextView, CountOutcomeView, CountingView, TaskView,
};
use crate::event::{EventView, FieldsView, OutgoingView};
use crate::family::family_of;
use crate::message::{BlockContents, ParamsView};
use crate::providers::{ClaudeInvocation, ClaudeOperation};
use crate::relay::{injected, message_delta_json, message_stop_json, types_differ, RelayView};
use crate::reply::{merged, ActionView, InputView, PhaseView, SetupView};
use crate::session::WebView;
use crate::text::{ascii_lower, ascii_lower_char};
use crate::tool_call::{unexpired, waits_for_result, Pending, ToolCallState};
use crate::tool_result::{last_result, result_payload};
use vstd::prelude::*;

pub mod answering;
pub mod counting;
pub mod reading;
pub mod relaying;
pub mod replying;
pub mod viewing;

verus! {

/// An event that a relay hears, and what its data says.
pub type Heard = (EventView, Option<FieldsView>);

impl RelayView {
    /// The relay after events.
    pub open spec fn after_all(self, heard: Seq<Heard>) -> RelayView
        decreases heard.len(),
    {
        if heard.len() == 0 {
            self
        } else {
            self.after_all(heard.drop_last()).after(heard.last().0, heard.last().1)
        }
    }
}

/// What is suppressed stays suppressed.
proof fn suppression_stays(relay: RelayView, heard: Seq<Heard>, index: usize)
    requires
        relay.suppressed_indices.contains(index),
    ensures
        relay.after_all(heard).suppressed_indices.contains(index),
    decreases heard.len(),
{
    if heard.len() > 0 {
        suppression_stays(relay, heard.drop_last(), index);
    }
}

/// A block that concerns the service alone never reaches the client: neither its
/// start, nor, whatever comes between, any later event under its index.
pub proof fn hidden_blocks_stay_hidden(
    relay: RelayView,
    start: EventView,
    start_fields: FieldsView,
    index: usize,
    between: Seq<Heard>,
    tail: EventView,
    tail_fields: FieldsView,
)
    requires
        start_fields.started() matches Some(block) && block.is_internal(),
        start_fields.index == Some(index),
        tail_fields.is_tail(),
        tail_fields.index == Some(index),
    ensures
        relay.relays(start, Some(start_fields)) == Seq::<OutgoingView>::empty(),
        relay.after(start, Some(start_fields)).after_all(between).relays(tail, Some(tail_fields))
            == Seq::<OutgoingView>::empty(),
{
    let started = relay.after(start, Some(start_fields));
    if relay.tool_call_break {
        ended_reply_is_silent(relay, between, tail, Some(tail_fields));
    } else {
        suppression_stays(started, between, index);
    }
}

/// A relay that has ended the reply passes nothing on, registers nothing and
/// stays as it is, whatever comes.
pub proof fn ended_reply_is_silent(
    relay: RelayView,
    heard: Seq<Heard>,
    event: EventView,
    fields: Option<FieldsView>,
)
    requires
        relay.tool_call_break,
    ensures
        relay.after_all(heard) == relay,
        relay.relays(event, fields) == Seq::<OutgoingView>::empty(),
        relay.registers(fields) is None,
    decreases heard.len(),
{
    if heard.len() > 0 {
        ended_reply_is_silent(relay, heard.drop_last(), event, fields);
    }
}

/// What the client gets is the event itself, unchanged, or one of the two events
/// that end a reply for a tool.
pub proof fn events_are_not_altered(
    relay: RelayView,
    event: EventView,
    fields: Option<FieldsView>,
    at: int,
)
    requires
        0 <= at < relay.relays(event, fields).len(),
    ensures
        ({
            let outgoing = relay.relays(event, fields)[at];
            ||| outgoing == event.forwarded()
            ||| outgoing == injected("message_delta"@, message_delta_json())
            ||| outgoing == injected("message_stop"@, message_stop_json())
        }),
{
}

/// An event that says nothing of an internal block, and is not about limits,
/// reaches the client first of all, as long as the reply has not ended.
pub proof fn other_events_are_passed_on(
    relay: RelayView,
    event: EventView,
    fields: Option<FieldsView>,
)
    requires
        !relay.tool_call_break,
        fields matches Some(f) ==> !relay.hides(f),
        event.event != "message_limit"@,
    ensures
        relay.relays(event, fields).len() > 0,
        relay.relays(event, fields)[0] == event.forwarded(),
{
}

/// An event leaves the tool call at `index` open: it starts no tool of the
/// client, hides nothing at that index, and ends nothing there.
pub open spec fn leaves_tool_open(fields: FieldsView, index: Option<usize>) -> bool {
    &&& fields.started() matches Some(block) ==> !block.is_client_tool()
    &&& fields.started() matches Some(block) ==> block.is_internal() ==> index is None
        || fields.index != index
    &&& !(fields.is_stop() && fields.index == index)
}

/// Events that leave the tool call at `index` open.
pub open spec fn all_leave_tool_open(heard: Seq<Heard>, index: Option<usize>) -> bool {
    forall|k: int|
        0 <= k < heard.len() ==> ((#[trigger] heard[k]).1 matches Some(f) ==> leaves_tool_open(
            f,
            index,
        ))
}

impl RelayView {
    /// The tool call `id` at `index` is open.
    pub open spec fn has_open_tool(self, id: Seq<char>, index: Option<usize>) -> bool {
        &&& self.has_tools
        &&& !self.tool_call_break
        &&& self.tool_use_id == Some(id)
        &&& self.tool_use_index == index
        &&& index matches Some(i) ==> !self.suppressed_indices.contains(i)
    }
}

/// An open tool call stays open.
proof fn tool_stays_open(relay: RelayView, heard: Seq<Heard>, id: Seq<char>, index: Option<usize>)
    requires
        all_leave_tool_open(heard, index),
        relay.has_open_tool(id, index),
    ensures
        relay.after_all(heard).has_open_tool(id, index),
    decreases heard.len(),
{
    if heard.len() > 0 {
        assert forall|k: int| 0 <= k < heard.drop_last().len() implies ((
        #[trigger] heard.drop_last()[k]).1 matches Some(f) ==> leaves_tool_open(f, index)) by {
            assert(heard.drop_last()[k] == heard[k]);
        }
        tool_stays_open(relay, heard.drop_last(), id, index);
        assert(heard[heard.len() - 1] == heard.last());
    }
}

/// A tool call of the client ends the reply: once it is open, whatever comes
/// between but another tool of the client, an internal block in its place or its
/// own end, its end is passed on and followed by the two events that end a reply
/// for a tool; the call is registered; and the relay has ended the reply.
pub proof fn tool_call_ends_the_reply(
    relay: RelayView,
    start: EventView,
    start_fields: FieldsView,
    between: Seq<Heard>,
    stop: EventView,
    stop_fields: FieldsView,
)
    requires
        relay.has_tools,
        !relay.tool_call_break,
        start_fields.started() matches Some(block) && block.is_client_tool(),
        all_leave_tool_open(between, start_fields.index),
        stop_fields.is_stop(),
        stop_fields.index == start_fields.index,
        start_fields.index matches Some(index) ==> !relay.suppressed_indices.contains(index),
    ensures
        ({
            let open = relay.after(start, Some(start_fields)).after_all(between);
            &&& open.relays(stop, Some(stop_fields)) == seq![
                stop.forwarded(),
                injected("message_delta"@, message_delta_json()),
                injected("message_stop"@, message_stop_json()),
            ]
            &&& open.registers(Some(stop_fields)) == Some(start_fields.started()->0.id)
            &&& open.after(stop, Some(stop_fields)).tool_call_break
        }),
{
    types_differ();
    let opened = relay.after(start, Some(start_fields));
    tool_stays_open(opened, between, start_fields.started()->0.id, start_fields.index);
}

/// Without tools in the request, the reply is never ended for one, and nothing
/// is registered.
pub proof fn no_tools_no_tool_calls(
    relay: RelayView,
    heard: Seq<Heard>,
    fields: Option<FieldsView>,
)
    requires
        !relay.has_tools,
        !relay.tool_call_break,
    ensures
        !relay.after_all(heard).tool_call_break,
        !relay.after_all(heard).has_tools,
        relay.after_all(heard).registers(fields) is None,
    decreases heard.len(),
{
    if heard.len() > 0 {
        no_tools_no_tool_calls(relay, heard.drop_last(), fields);
    }
}

/// The events that are heard.
pub open spec fn events_of(heard: Seq<Heard>) -> Seq<EventView> {
    heard.map_values(|h: Heard| h.0)
}

/// A reply that is streamed to its end has the same text as one that is merged
/// from the same events.
pub proof fn streamed_text_is_merged_text(has_tools: bool, input_tokens: u32, heard: Seq<Heard>)
    requires
        !RelayView::fresh(has_tools, input_tokens).after_all(heard).tool_call_break,
    ensures
        RelayView::fresh(has_tools, input_tokens).after_all(heard).text == merged(
            events_of(heard),
        ),
    decreases heard.len(),
{
    if heard.len() > 0 {
        let fresh = RelayView::fresh(has_tools, input_tokens);
        if fresh.after_all(heard.drop_last()).tool_call_break {
            assert(false);
        }
        streamed_text_is_merged_text(has_tools, input_tokens, heard.drop_last());
        assert(events_of(heard).drop_last() =~= events_of(heard.drop_last()));
    }
}

impl SetupView {
    /// Where a reply stands after `inputs`, and all it asked for.
    pub open spec fn run(self, stream: bool, inputs: Seq<InputView>) -> (
        PhaseView,
        Seq<ActionView>,
    )
        decreases inputs.len(),
    {
        if inputs.len() == 0 {
            self.start(stream)
        } else {
            let (phase, asked) = self.run(stream, inputs.drop_last());
            let (next, more) = self.step(phase, inputs.last());
            (next, asked + more)
        }
    }
}

impl ActionView {
    /// The action puts tokens on record.
    pub open spec fn settles(self) -> bool {
        self is Record || self is Persist
    }

    /// The action counts tokens exactly.
    pub open spec fn counts(self) -> bool {
        self is CountInput || self is CountOutput
    }
}

/// None of `actions` puts tokens on record.
pub open spec fn settles_nothing(actions: Seq<ActionView>) -> bool {
    forall|k: int| 0 <= k < actions.len() ==> !(#[trigger] actions[k]).settles()
}

/// None of `actions` registers a tool call.
pub open spec fn registers_nothing(actions: Seq<ActionView>) -> bool {
    forall|k: int| 0 <= k < actions.len() ==> !((#[trigger] actions[k]) is Register)
}

/// At most one of `actions` puts tokens on record.
pub open spec fn settles_once(actions: Seq<ActionView>) -> bool {
    forall|i: int, j: int|
        #![trigger actions[i], actions[j]]
        0 <= i < j < actions.len() ==> !(actions[i].settles() && actions[j].settles())
}

/// What a step that does not finish a reply, or ends it for a tool, asks for.
proof fn step_facts(setup: SetupView, phase: PhaseView, input: InputView)
    ensures
        ({
            let (next, more) = setup.step(phase, input);
            &&& settles_once(more)
            &&& next !is Finished ==> settles_nothing(more) && registers_nothing(more)
            &&& phase is Finished ==> next is Finished && more.len() == 0
            &&& settles_nothing(more) || registers_nothing(more)
        }),
{
    let (next, more) = setup.step(phase, input);
    if let (PhaseView::Relaying(relay), InputView::Event(event, fields)) = (phase, input) {
        types_differ();
        assert(settles_nothing(more));
        if next !is Finished {
            assert(relay.registers(fields) is None);
            assert(registers_nothing(more));
        }
    } else {
        assert(registers_nothing(more));
    }
}

/// Whatever is handed to a reply, it puts tokens on record at most once, and only
/// as it finishes; and never if it registers a tool call.
pub proof fn tokens_are_settled_at_most_once(
    setup: SetupView,
    stream: bool,
    inputs: Seq<InputView>,
)
    ensures
        ({
            let (phase, asked) = setup.run(stream, inputs);
            &&& settles_once(asked)
            &&& phase !is Finished ==> settles_nothing(asked)
            &&& phase !is Finished ==> registers_nothing(asked)
            &&& settles_nothing(asked) || registers_nothing(asked)
        }),
    decreases inputs.len(),
{
    if inputs.len() > 0 {
        tokens_are_settled_at_most_once(setup, stream, inputs.drop_last());
        let (phase, asked) = setup.run(stream, inputs.drop_last());
        step_facts(setup, phase, inputs.last());
        let (next, more) = setup.step(phase, inputs.last());
        if phase is Finished {
            assert(asked + more =~= asked);
        }
    }
}

/// A finished reply does nothing more.
pub proof fn finished_reply_does_nothing(setup: SetupView, input: InputView)
    ensures
        setup.step(PhaseView::Finished, input) == (
            PhaseView::Finished,
            Seq::<ActionView>::empty(),
        ),
{
}

/// None of `actions` counts tokens exactly.
pub open spec fn counts_nothing(actions: Seq<ActionView>) -> bool {
    forall|k: int| 0 <= k < actions.len() ==> !(#[trigger] actions[k]).counts()
}

/// Tokens are counted exactly only where that is wanted.
pub proof fn exact_counts_only_if_wanted(
    setup: SetupView,
    stream: bool,
    inputs: Seq<InputView>,
)
    requires
        !setup.precise,
    ensures
        counts_nothing(setup.run(stream, inputs).1),
    decreases inputs.len(),
{
    if inputs.len() > 0 {
        exact_counts_only_if_wanted(setup, stream, inputs.drop_last());
        let (phase, asked) = setup.run(stream, inputs.drop_last());
        let (next, more) = setup.step(phase, inputs.last());
        assert(counts_nothing(more));
    }
}

/// Where an exact count of a reply fails, an estimate takes its place: the same
/// tokens, got either way, are settled alike.
pub proof fn counted_or_estimated_alike(
    setup: SetupView,
    text: Seq<char>,
    input_tokens: u32,
    whole: bool,
    tokens: u32,
)
    ensures
        ({
            let counting = PhaseView::CountingOutput { text, input_tokens, whole };
            let (uncounted, _) = setup.step(counting, InputView::OutputCounted(None));
            setup.step(counting, InputView::OutputCounted(Some(tokens))) == setup.step(
                uncounted,
                InputView::Estimated(tokens),
            )
        }),
{
}

/// A registered tool call is found under its identifier, with its session, and
/// once only; other calls are left alone.
pub proof fn registered_call_is_taken_once(
    pending: Pending,
    id: Seq<char>,
    state: ToolCallState,
    other: Seq<char>,
)
    ensures
        pending.insert(id, state).contains_key(id),
        pending.insert(id, state)[id] == state,
        !pending.insert(id, state).remove(id).contains_key(id),
        other != id ==> (pending.insert(id, state).contains_key(other) <==> pending.contains_key(
            other,
        )),
        other != id && pending.contains_key(other) ==> pending.insert(id, state)[other]
            == pending[other],
        !pending.contains_key(id) ==> pending.insert(id, state).remove(id) == pending,
{
    if !pending.contains_key(id) {
        assert(pending.insert(id, state).remove(id) =~= pending);
    }
}

/// A cleanup that is done again, later or at once, leaves what a single late one
/// leaves.
pub proof fn cleanups_add_up(pending: Pending, now: u128, later: u128, timeout: u128)
    requires
        now <= later,
    ensures
        unexpired(unexpired(pending, now, timeout), later, timeout) == unexpired(
            pending,
            later,
            timeout,
        ),
{
    assert(unexpired(unexpired(pending, now, timeout), later, timeout) =~= unexpired(
        pending,
        later,
        timeout,
    ));
}

/// A call outlives a cleanup that comes no later than the timeout after it was
/// registered.
pub proof fn fresh_calls_outlive_cleanups(
    pending: Pending,
    id: Seq<char>,
    state: ToolCallState,
    now: u128,
    timeout: u128,
)
    requires
        now - state.created_at <= timeout,
    ensures
        unexpired(pending.insert(id, state), now, timeout).contains_key(id),
        unexpired(pending.insert(id, state), now, timeout)[id] == state,
{
}

/// The keys of the payload of a tool result are different texts.
proof fn payload_keys_differ()
    ensures
        "type"@ != "tool_use_id"@,
        "type"@ != "content"@,
        "type"@ != "is_error"@,
        "tool_use_id"@ != "content"@,
        "tool_use_id"@ != "is_error"@,
        "content"@ != "is_error"@,
{
    reveal_strlit("type");
    reveal_strlit("tool_use_id");
    reveal_strlit("content");
    reveal_strlit("is_error");
    assert("type"@.len() == 4);
    assert("tool_use_id"@.len() == 11);
    assert("content"@.len() == 7);
    assert("is_error"@.len() == 8);
}

/// The last tool result is a tool result.
proof fn last_result_is_result(blocks: Seq<BlockContents>)
    ensures
        last_result(blocks) matches Some(block) ==> block is ToolResult && blocks.contains(block),
    decreases blocks.len(),
{
    if blocks.len() > 0 {
        last_result_is_result(blocks.drop_last());
        if blocks.last() is ToolResult {
            assert(blocks[blocks.len() - 1] == blocks.last());
        } else if let Some(block) = last_result(blocks.drop_last()) {
            let k = choose|k: int|
                0 <= k < blocks.drop_last().len() && blocks.drop_last()[k] == block;
            assert(blocks[k] == block);
        }
    }
}

/// What is sent for a request that answers a tool use names that very tool use,
/// as a tool result.
pub proof fn payload_names_the_answered_tool(params: ParamsView)
    requires
        params.answered_tool() is Some,
    ensures
        result_payload(params.tool_result()).text_at("tool_use_id"@) == params.answered_tool(),
        result_payload(params.tool_result()).text_at("type"@) == Some("tool_result"@),
{
    payload_keys_differ();
}

/// A tool result counts wherever it stands in the last message: text and other
/// blocks after it do not hide it.
pub proof fn later_blocks_do_not_hide_a_result(blocks: Seq<BlockContents>, block: BlockContents)
    requires
        block !is ToolResult,
    ensures
        last_result(blocks.push(block)) == last_result(blocks),
{
    assert(blocks.push(block).drop_last() =~= blocks);
}

/// A tool result is found if there is one, and it is one of the blocks.
pub proof fn a_result_is_found(blocks: Seq<BlockContents>, at: int)
    requires
        0 <= at < blocks.len(),
        blocks[at] is ToolResult,
    ensures
        last_result(blocks) matches Some(block) && block is ToolResult && blocks.contains(block),
    decreases blocks.len(),
{
    last_result_is_result(blocks);
    if !(blocks.last() is ToolResult) {
        assert(blocks.drop_last()[at] == blocks[at]);
        a_result_is_found(blocks.drop_last(), at);
    }
}

/// A tool call that a relay has registered is resumed by the request that brings
/// its result, and by that alone: the same request, once more, starts a chat.
pub proof fn tool_calls_are_resumed_once(
    relay: RelayView,
    fields: Option<FieldsView>,
    pending: Pending,
    state: ToolCallState,
    request: ClaudeInvocation,
)
    requires
        relay.registers(fields) is Some,
        request.operation == ClaudeOperation::Messages,
        request.params@.answered_tool() == relay.registers(fields),
    ensures
        ({
            let id = relay.registers(fields)->0;
            let registered = pending.insert(id, state);
            &&& request.resumes(registered) == Some(id)
            &&& registered[id] == state
            &&& request.resumes(registered.remove(id)) is None
        }),
{
}

/// The session that registered itself under a tool use is the one that the
/// request with the result goes on in: as it stood, set up for the request.
pub proof fn the_registered_session_is_resumed(
    before: Pending,
    after: Pending,
    id: Seq<char>,
    session: WebView,
    now: u128,
    request: ClaudeInvocation,
)
    requires
        waits_for_result(before, after, id, session, now),
        request.operation == ClaudeOperation::Messages,
        request.params@.answered_tool() == Some(id),
    ensures
        request.resumes(after) == Some(id),
        after[id].session@.resuming(request.context, request.params@) == session.resuming(
            request.context,
            request.params@,
        ),
        request.resumes(after.remove(id)) is None,
{
    assert(after.dom().contains(id));
}

/// Asking for a count never resumes a tool call.
pub proof fn counts_resume_nothing(request: ClaudeInvocation, pending: Pending)
    requires
        request.operation == ClaudeOperation::CountTokens,
    ensures
        request.resumes(pending) is None,
{
}

/// A count of the last request is asked for wherever there is a cookie, without
/// streaming, and with nothing else changed in the request.
pub proof fn counts_are_of_the_request(state: WebView, params: ParamsView)
    requires
        state.last_params == Some(params),
    ensures
        state.input_count() is Some <==> state.cookie is Some,
        state.input_count() matches Some(task) ==> {
            &&& task.body.stream == Some(false)
            &&& (ParamsView { stream: params.stream, ..task.body }) == params
            &&& task.code.cookie == state.cookie
            &&& task.code.upstream == state.upstream
        },
{
}

impl TaskView {
    /// How the count goes on after `outcomes`. One that has ended goes on no
    /// more.
    pub open spec fn after_outcomes<X>(self, outcomes: Seq<CountOutcomeView<X>>) -> Option<
        CountNextView<X>,
    >
        decreases outcomes.len(),
    {
        if outcomes.len() == 0 {
            Some(self.begun())
        } else {
            match self.after_outcomes(outcomes.drop_last()) {
                Some(CountNextView::Ask(state, _)) => state.next(outcomes.last()),
                _ => None,
            }
        }
    }
}

/// Each of the first exchanges of a count has succeeded, in order: those that
/// `outcomes` tell of.
pub open spec fn exchanged<X>(task: TaskView, outcomes: Seq<CountOutcomeView<X>>) -> bool {
    &&& outcomes.len() <= 3
    &&& outcomes.len() > 0 ==> (outcomes[0] matches CountOutcomeView::Organization(_, found)
        && found is Some)
    &&& outcomes.len() > 1 ==> (outcomes[1] matches CountOutcomeView::Code(_, exchange)
        && exchange is Some)
    &&& outcomes.len() > 2 ==> (outcomes[2] matches CountOutcomeView::Token(code, granted)
        && granted && (TaskView { code, body: task.body }).request() is Some)
}

/// What is asked for after exchanges that have succeeded: each gets the session
/// as the one before left it, and what that one gave.
pub open spec fn asked_after<X>(task: TaskView, outcomes: Seq<CountOutcomeView<X>>) -> CountNextView<
    X,
> {
    if outcomes.len() == 0 {
        task.begun()
    } else {
        match outcomes.last() {
            CountOutcomeView::Organization(code, found) => CountNextView::Ask(
                CountingView::Code(task.body),
                CountActionView::ExchangeCode(code, found->0),
            ),
            CountOutcomeView::Code(code, exchange) => CountNextView::Ask(
                CountingView::Token(task.body),
                CountActionView::ExchangeToken(code, exchange->0),
            ),
            CountOutcomeView::Token(code, _) => CountNextView::Ask(
                CountingView::Reply,
                CountActionView::Post(
                    code.upstream.client,
                    (TaskView { code, body: task.body }).request()->0,
                ),
            ),
            CountOutcomeView::Reply(tokens) => CountNextView::Counted(tokens->0),
        }
    }
}

/// A count goes through its exchanges in order: the organization, a code for it, a
/// token for that, and the posting of the request with that token. It comes out
/// with a result exactly if all of them succeed, and the result is what the reply
/// says; it is still going on exactly if those so far have succeeded; otherwise it
/// has ended with none.
pub proof fn counts_go_through_their_exchanges<X>(
    task: TaskView,
    outcomes: Seq<CountOutcomeView<X>>,
)
    ensures
        exchanged(task, outcomes) ==> task.after_outcomes(outcomes) == Some(
            asked_after(task, outcomes),
        ),
        task.after_outcomes(outcomes) matches Some(CountNextView::Ask(_, _)) ==> exchanged(
            task,
            outcomes,
        ),
        forall|tokens: u32|
            task.after_outcomes(outcomes) == Some(CountNextView::<X>::Counted(tokens)) <==> {
                &&& outcomes.len() == 4
                &&& exchanged(task, outcomes.take(3))
                &&& outcomes[3] == CountOutcomeView::<X>::Reply(Some(tokens))
            },
    decreases outcomes.len(),
{
    if outcomes.len() > 0 {
        let before = outcomes.drop_last();
        counts_go_through_their_exchanges(task, before);
        if outcomes.len() == 4 {
            assert(before =~= outcomes.take(3));
        }
        assert(forall|k: int| 0 <= k < before.len() ==> before[k] == outcomes[k]);
    }
}

/// The outcome of an action that failed.
pub open spec fn failed<X>(outcome: CountOutcomeView<X>) -> bool {
    match outcome {
        CountOutcomeView::Organization(_, organization) => organization is None,
        CountOutcomeView::Code(_, exchange) => exchange is None,
        CountOutcomeView::Token(_, granted) => !granted,
        CountOutcomeView::Reply(tokens) => tokens is None,
    }
}

/// A failure anywhere ends a count with none.
pub proof fn failures_end_counts<X>(state: CountingView, outcome: CountOutcomeView<X>)
    requires
        failed(outcome),
    ensures
        state.next(outcome) is None,
{
}

/// The case of a model's name does not matter to its family.
pub proof fn family_ignores_case(model: Seq<char>)
    ensures
        family_of(ascii_lower(model)) == family_of(model),
{
    assert(ascii_lower(ascii_lower(model)) =~= ascii_lower(model)) by {
        assert forall|c: char| #[trigger]
            ascii_lower_char(ascii_lower_char(c)) == ascii_lower_char(c) by {}
    }
}

} // verus!
