//! What a reply asks for, told over whole runs of it.
use super::reading::{holds, holds_unsigned, Fields};
use super::relaying::{carries_service_mark, same_event, tells_start};
use super::{events_of, streamed_text_is_merged_text, Heard};
use crate::event::{event_fields, EventView, FieldsView, OutgoingView};
use crate::family::{family_of, ModelFamily};
use crate::json::{json_parse, json_print, JsonView};
use crate::message::{BlockContents, ParamsView, ResponseView, Usage};
use crate::relay::{message_delta_json, message_stop_json, RelayView};
use crate::reply::{
    ends_for_tool, merged, tells_tool_stop, ActionView, InputView, PhaseView, SetupView,
};
use crate::session::WebView;
use vstd::prelude::*;

verus! {

/// A run goes on by a step.
proof fn run_goes_on(setup: SetupView, stream: bool, inputs: Seq<InputView>, input: InputView)
    ensures
        ({
            let (phase, asked) = setup.run(stream, inputs);
            let (next, more) = setup.step(phase, input);
            setup.run(stream, inputs.push(input)) == (next, asked + more)
        }),
{
    assert(inputs.push(input).drop_last() =~= inputs);
}

/// A session decides what its reply depends on: how many tokens are known, whether
/// there is a cookie, the model of the last request, and whether that has tools.
/// It has them if it names one, or more; not if it names none, or has no list.
pub proof fn a_session_decides_its_reply(session: WebView, precise: bool, params: ParamsView)
    ensures
        ({
            let setup = session.reply_setup(precise);
            &&& setup.precise == precise
            &&& setup.usage == session.usage
            &&& setup.has_cookie == (session.cookie is Some)
            &&& session.last_params == Some(params) ==> {
                &&& setup.model == Some(params.model)
                &&& params.tools matches Some(tools) ==> (setup.has_tools <==> tools.len() >= 1)
                &&& params.tools is None ==> !setup.has_tools
            }
            &&& session.last_params is None ==> setup.model is None && !setup.has_tools
        }),
{
}

/// The reply to a request with tools, however many, starts out with tools: its
/// relay watches for calls of them from the first event on. The reply to any
/// other request starts out without.
pub proof fn tools_are_watched_for(session: WebView, precise: bool, counted: Option<u32>)
    requires
        session.stream,
    ensures
        ({
            let setup = session.reply_setup(precise);
            let named = match session.last_params {
                Some(params) => match params.tools {
                    Some(tools) => tools.len(),
                    None => 0,
                },
                None => 0,
            };
            &&& !precise ==> setup.start(session.stream).0 == PhaseView::Relaying(
                watching(named > 0, session.usage.input_tokens),
            )
            &&& precise ==> setup.step(
                setup.start(session.stream).0,
                InputView::InputCounted(counted),
            ).0 == PhaseView::Relaying(
                watching(
                    named > 0,
                    if counted is Some {
                        counted->0
                    } else {
                        session.usage.input_tokens
                    },
                ),
            )
        }),
{
}

/// A relay that has heard nothing yet.
pub open spec fn watching(has_tools: bool, input_tokens: u32) -> RelayView {
    RelayView {
        has_tools,
        input_tokens,
        text: Seq::empty(),
        tool_use_id: None,
        tool_use_index: None,
        suppressed_indices: Set::empty(),
        tool_call_break: false,
    }
}

/// How a streamed reply is opened: with the count of the request, where exact
/// counts are wanted.
pub open spec fn opening(setup: SetupView, counted: Option<u32>) -> Seq<InputView> {
    if setup.precise {
        seq![InputView::InputCounted(counted)]
    } else {
        Seq::empty()
    }
}

/// What a streamed reply asks for as it is opened.
pub open spec fn asked_to_open(setup: SetupView) -> Seq<ActionView> {
    if setup.precise {
        seq![ActionView::CountInput, ActionView::Next]
    } else {
        seq![ActionView::Next]
    }
}

/// The tokens of the request: the exact count, where one is wanted and was got;
/// what was known before, if not.
pub open spec fn read_tokens(setup: SetupView, counted: Option<u32>) -> u32 {
    if setup.precise && counted is Some {
        counted->0
    } else {
        setup.usage.input_tokens
    }
}

/// The tokens of the reply: the exact count, where one is wanted, the model known,
/// and a count was got; the estimate, if not.
pub open spec fn written_tokens(setup: SetupView, counted: Option<u32>, estimate: u32) -> u32 {
    if setup.precise && setup.model is Some && counted is Some {
        counted->0
    } else {
        estimate
    }
}

/// A streamed reply once it is opened.
proof fn opened(setup: SetupView, counted: Option<u32>)
    ensures
        setup.run(true, opening(setup, counted)) == (
            PhaseView::Relaying(watching(setup.has_tools, read_tokens(setup, counted))),
            asked_to_open(setup),
        ),
{
    if setup.precise {
        run_goes_on(setup, true, Seq::empty(), InputView::InputCounted(counted));
        assert(opening(setup, counted) =~= Seq::<InputView>::empty().push(
            InputView::InputCounted(counted),
        ));
        assert(asked_to_open(setup) =~= seq![ActionView::CountInput] + seq![ActionView::Next]);
    }
}

/// The events, as they are handed to a reply.
pub open spec fn handed_in(heard: Seq<Heard>) -> Seq<InputView> {
    heard.map_values(|h: Heard| InputView::Event(h.0, h.1))
}

/// A relayed reply stands where its relay does, as long as that has not ended it.
proof fn relays_on(setup: SetupView, counted: Option<u32>, heard: Seq<Heard>)
    requires
        !watching(setup.has_tools, read_tokens(setup, counted)).after_all(heard).tool_call_break,
    ensures
        setup.run(true, opening(setup, counted) + handed_in(heard)).0 == PhaseView::Relaying(
            watching(setup.has_tools, read_tokens(setup, counted)).after_all(heard),
        ),
    decreases heard.len(),
{
    opened(setup, counted);
    if heard.len() == 0 {
        assert(opening(setup, counted) + handed_in(heard) =~= opening(setup, counted));
    } else {
        let before = heard.drop_last();
        let last = heard.last();
        relays_on(setup, counted, before);
        let inputs = opening(setup, counted) + handed_in(before);
        run_goes_on(setup, true, inputs, InputView::Event(last.0, last.1));
        assert(opening(setup, counted) + handed_in(heard) =~= inputs.push(
            InputView::Event(last.0, last.1),
        ));
    }
}

/// The end of a tool call, told over the whole reply: a request that names a tool,
/// or more, is streamed; a tool of the client starts and stops. The client gets
/// both events, then one that says that the reply stops for a tool, and one that
/// ends it; the call is registered; and the reply is finished. To a request that
/// names no tool, the same two events are events like any others.
pub proof fn called_tools_finish_the_reply(
    session: WebView,
    precise: bool,
    counted: Option<u32>,
    start: EventView,
    start_json: Fields,
    block: Fields,
    index: Option<u64>,
    id: Seq<char>,
    stop: EventView,
    stop_json: Fields,
)
    requires
        session.stream,
        start.event != "message_limit"@,
        stop.event != "message_limit"@,
        tells_start(start_json, block),
        holds(block, "type"@, JsonView::Text("tool_use"@)),
        holds(block, "id"@, JsonView::Text(id)),
        !carries_service_mark(block),
        holds(stop_json, "type"@, JsonView::Text("content_block_stop"@)),
        index matches Some(i) ==> holds(start_json, "index"@, JsonView::Unsigned(i)) && holds(
            stop_json,
            "index"@,
            JsonView::Unsigned(i),
        ),
        index is None ==> !holds_unsigned(start_json, "index"@) && !holds_unsigned(
            stop_json,
            "index"@,
        ),
    ensures
        ({
            let setup = session.reply_setup(precise);
            let (phase, asked) = setup.run(
                session.stream,
                opening(setup, counted) + seq![
                    InputView::Event(start, Some(event_fields(JsonView::Object(start_json)))),
                    InputView::Event(stop, Some(event_fields(JsonView::Object(stop_json)))),
                ],
            );
            let passed_on = asked_to_open(setup) + seq![
                ActionView::Send(same_event(start)),
                ActionView::Next,
                ActionView::Send(same_event(stop)),
            ];
            let names_tools = session.last_params matches Some(params) && (
            params.tools matches Some(tools) && tools.len() >= 1);
            &&& names_tools ==> phase is Finished && asked == passed_on + seq![
                ActionView::Send(
                    OutgoingView {
                        event: "message_delta"@,
                        id: None,
                        data: json_print(message_delta_json()),
                        retry_ms: None,
                    },
                ),
                ActionView::Send(
                    OutgoingView {
                        event: "message_stop"@,
                        id: None,
                        data: json_print(message_stop_json()),
                        retry_ms: None,
                    },
                ),
                ActionView::Register(id),
                ActionView::Finish,
            ]
            &&& !names_tools ==> phase is Relaying && asked == passed_on + seq![ActionView::Next]
        }),
{
    let setup = session.reply_setup(precise);
    let start_fields = Some(event_fields(JsonView::Object(start_json)));
    let stop_fields = Some(event_fields(JsonView::Object(stop_json)));
    let first = InputView::Event(start, start_fields);
    let second = InputView::Event(stop, stop_fields);
    opened(setup, counted);
    let fresh = watching(setup.has_tools, read_tokens(setup, counted));
    super::relaying::client_tools_are_opened(fresh, start, start_json, block);
    let open = fresh.after(start, start_fields);
    run_goes_on(setup, true, opening(setup, counted), first);
    assert(setup.step(PhaseView::Relaying(fresh), first) == (
        PhaseView::Relaying(open),
        seq![ActionView::Send(same_event(start)), ActionView::Next],
    )) by {
        assert(setup.step(PhaseView::Relaying(fresh), first).1 =~= seq![
            ActionView::Send(same_event(start)),
            ActionView::Next,
        ]);
    }
    if setup.has_tools {
        super::relaying::the_end_of_a_call_ends_the_reply(open, stop, stop_json, index, id);
    } else {
        super::relaying::later_events_go_by_their_index(open, stop, stop_json, index);
    }
    run_goes_on(setup, true, opening(setup, counted).push(first), second);
    assert(opening(setup, counted) + seq![first, second] =~= opening(setup, counted).push(
        first,
    ).push(second));
    let (phase, asked) = setup.run(true, opening(setup, counted) + seq![first, second]);
    let passed_on = asked_to_open(setup) + seq![
        ActionView::Send(same_event(start)),
        ActionView::Next,
        ActionView::Send(same_event(stop)),
    ];
    let sent = open.relays(stop, stop_fields);
    if setup.has_tools {
        assert(asked =~= passed_on + seq![
            ActionView::Send(sent[1]),
            ActionView::Send(sent[2]),
            ActionView::Register(id),
            ActionView::Finish,
        ]);
    } else {
        assert(asked =~= passed_on + seq![ActionView::Next]);
    }
}

/// What a relay makes of an event is what the reply asks for: each event for the
/// client is sent, in order; a tool call is registered after them; the next event
/// is asked for, or the reply is finished.
pub proof fn relayed_events_are_sent(
    setup: SetupView,
    relay: RelayView,
    event: EventView,
    fields: Option<FieldsView>,
)
    ensures
        ({
            let (phase, asked) = setup.step(
                PhaseView::Relaying(relay),
                InputView::Event(event, fields),
            );
            let sent = relay.relays(event, fields);
            let after = relay.after(event, fields);
            &&& forall|k: int| 0 <= k < sent.len() ==> asked[k] == ActionView::Send(#[trigger] sent[k])
            &&& relay.registers(fields) matches Some(id) ==> asked.len() == sent.len() + 2
                && asked[sent.len() as int] == ActionView::Register(id)
            &&& relay.registers(fields) is None ==> asked.len() == sent.len() + 1
            &&& after.tool_call_break ==> phase is Finished && asked.last() == ActionView::Finish
            &&& !after.tool_call_break ==> phase == PhaseView::Relaying(after) && asked.last()
                == ActionView::Next
        }),
{
}

/// The reply that is a single text, without a model's name.
pub open spec fn plain_reply(text: Seq<char>, usage: Usage) -> ResponseView {
    ResponseView {
        content: seq![BlockContents::Text(text)],
        model: Seq::empty(),
        usage: Some(usage),
    }
}

/// A whole reply is answered: its text is merged; the request is counted, where
/// exact counts are wanted; the reply is counted, or estimated where that is not
/// wanted, not possible or fails; the tokens are put on record, and the client is
/// answered with the very text and those tokens.
pub proof fn whole_replies_are_answered(
    setup: SetupView,
    text: Seq<char>,
    read: Option<u32>,
    written: Option<u32>,
    estimate: u32,
)
    ensures
        ({
            let tokens = Usage {
                input_tokens: read_tokens(setup, read),
                output_tokens: written_tokens(setup, written, estimate),
            };
            let settled = seq![
                ActionView::Persist {
                    input_tokens: tokens.input_tokens as u64,
                    output_tokens: tokens.output_tokens as u64,
                },
                ActionView::Respond(plain_reply(text, tokens)),
            ];
            let estimating = ActionView::Estimate(plain_reply(text, setup.usage));
            &&& !setup.precise ==> setup.run(
                false,
                seq![InputView::Merged(text), InputView::Estimated(estimate)],
            ) == (PhaseView::Finished, seq![ActionView::Merge, estimating] + settled)
            &&& setup.precise && setup.model is None ==> setup.run(
                false,
                seq![
                    InputView::Merged(text),
                    InputView::InputCounted(read),
                    InputView::Estimated(estimate),
                ],
            ) == (
                PhaseView::Finished,
                seq![ActionView::Merge, ActionView::CountInput, estimating] + settled,
            )
            &&& setup.precise ==> (setup.model matches Some(model) ==> ({
                let counting = ActionView::CountOutput { model, text };
                &&& written is Some ==> setup.run(
                    false,
                    seq![
                        InputView::Merged(text),
                        InputView::InputCounted(read),
                        InputView::OutputCounted(written),
                    ],
                ) == (
                    PhaseView::Finished,
                    seq![ActionView::Merge, ActionView::CountInput, counting] + settled,
                )
                &&& written is None ==> setup.run(
                    false,
                    seq![
                        InputView::Merged(text),
                        InputView::InputCounted(read),
                        InputView::OutputCounted(written),
                        InputView::Estimated(estimate),
                    ],
                ) == (
                    PhaseView::Finished,
                    seq![ActionView::Merge, ActionView::CountInput, counting, estimating] + settled,
                )
            }))
        }),
{
    let none = Seq::<InputView>::empty();
    let merged = InputView::Merged(text);
    let counted = InputView::InputCounted(read);
    let measured = InputView::OutputCounted(written);
    let estimated = InputView::Estimated(estimate);
    run_goes_on(setup, false, none, merged);
    if !setup.precise {
        run_goes_on(setup, false, none.push(merged), estimated);
        assert(seq![merged, estimated] =~= none.push(merged).push(estimated));
        let asked = setup.run(false, none.push(merged).push(estimated)).1;
        assert(asked =~= seq![
            ActionView::Merge,
            ActionView::Estimate(plain_reply(text, setup.usage)),
            asked[2],
            asked[3],
        ]);
    } else {
        run_goes_on(setup, false, none.push(merged), counted);
        let both = none.push(merged).push(counted);
        if setup.model is None {
            run_goes_on(setup, false, both, estimated);
            assert(seq![merged, counted, estimated] =~= both.push(estimated));
        } else {
            run_goes_on(setup, false, both, measured);
            run_goes_on(setup, false, both.push(measured), estimated);
            assert(seq![merged, counted, measured] =~= both.push(measured));
            assert(seq![merged, counted, measured, estimated] =~= both.push(measured).push(
                estimated,
            ));
        }
    }
}

/// The action is one that a whole reply with this text and these tokens may ask
/// for.
pub open spec fn speaks_of(
    setup: SetupView,
    text: Seq<char>,
    read: u32,
    written: u32,
    action: ActionView,
) -> bool {
    match action {
        ActionView::Merge | ActionView::CountInput | ActionView::Fail => true,
        ActionView::CountOutput { model, text: counted } => setup.model == Some(model) && counted
            == text,
        ActionView::Estimate(response) => response == plain_reply(text, setup.usage),
        ActionView::Persist { input_tokens, output_tokens } => input_tokens == read
            && output_tokens == written,
        ActionView::Respond(response) => response == plain_reply(
            text,
            Usage { input_tokens: read, output_tokens: written },
        ),
        _ => false,
    }
}

/// A whole reply stands somewhere on its way, with this text and these tokens.
spec fn keeps_text(
    setup: SetupView,
    text: Seq<char>,
    read: u32,
    written: Option<u32>,
    phase: PhaseView,
) -> bool {
    match phase {
        PhaseView::Merging | PhaseView::Finished => true,
        PhaseView::CountingTextInput(kept) => kept == text && setup.precise,
        PhaseView::CountingOutput { text: kept, input_tokens, whole } => kept == text
            && input_tokens == read && whole && setup.precise && setup.model is Some,
        PhaseView::Estimating { text: kept, input_tokens, whole } => kept == text
            && input_tokens == read && whole && !(setup.precise && setup.model is Some
            && written is Some),
        _ => false,
    }
}

/// Whatever is handed to a whole reply, in whatever order and however often, as
/// long as it tells of one text and of the same counts: every count and every
/// estimate that is asked for, and the answer at the end, is of that very text;
/// and the tokens on record and in the answer are the counted ones where exact
/// counts are wanted and were got, and those known before or estimated if not.
pub proof fn whole_replies_keep_their_text(
    setup: SetupView,
    inputs: Seq<InputView>,
    text: Seq<char>,
    read: Option<u32>,
    written: Option<u32>,
    estimate: u32,
)
    requires
        forall|k: int|
            0 <= k < inputs.len() ==> match #[trigger] inputs[k] {
                InputView::Merged(merged) => merged == text,
                InputView::InputCounted(tokens) => tokens == read,
                InputView::OutputCounted(tokens) => tokens == written,
                InputView::Estimated(tokens) => tokens == estimate,
                _ => true,
            },
    ensures
        forall|k: int|
            0 <= k < setup.run(false, inputs).1.len() ==> speaks_of(
                setup,
                text,
                read_tokens(setup, read),
                written_tokens(setup, written, estimate),
                #[trigger] setup.run(false, inputs).1[k],
            ),
{
    text_is_kept(setup, inputs, text, read, written, estimate);
}

/// A whole reply stands with its text and tokens after any inputs that agree.
proof fn text_is_kept(
    setup: SetupView,
    inputs: Seq<InputView>,
    text: Seq<char>,
    read: Option<u32>,
    written: Option<u32>,
    estimate: u32,
)
    requires
        forall|k: int|
            0 <= k < inputs.len() ==> match #[trigger] inputs[k] {
                InputView::Merged(merged) => merged == text,
                InputView::InputCounted(tokens) => tokens == read,
                InputView::OutputCounted(tokens) => tokens == written,
                InputView::Estimated(tokens) => tokens == estimate,
                _ => true,
            },
    ensures
        keeps_text(
            setup,
            text,
            read_tokens(setup, read),
            written,
            setup.run(false, inputs).0,
        ),
        forall|k: int|
            0 <= k < setup.run(false, inputs).1.len() ==> speaks_of(
                setup,
                text,
                read_tokens(setup, read),
                written_tokens(setup, written, estimate),
                #[trigger] setup.run(false, inputs).1[k],
            ),
    decreases inputs.len(),
{
    if inputs.len() > 0 {
        let before = inputs.drop_last();
        assert(forall|k: int| 0 <= k < before.len() ==> #[trigger] before[k] == inputs[k]);
        text_is_kept(setup, before, text, read, written, estimate);
        let last = inputs[inputs.len() - 1];
        let (phase, asked) = setup.run(false, before);
        let (next, more) = setup.step(phase, last);
        assert forall|k: int| 0 <= k < more.len() implies speaks_of(
            setup,
            text,
            read_tokens(setup, read),
            written_tokens(setup, written, estimate),
            #[trigger] more[k],
        ) by {}
        assert forall|k: int| 0 <= k < (asked + more).len() implies speaks_of(
            setup,
            text,
            read_tokens(setup, read),
            written_tokens(setup, written, estimate),
            #[trigger] (asked + more)[k],
        ) by {
            if k < asked.len() {
                assert((asked + more)[k] == asked[k]);
            } else {
                assert((asked + more)[k] == more[k - asked.len()]);
            }
        }
    }
}

/// The action, where it carries a text, carries this one.
pub open spec fn carries_text(text: Seq<char>, action: ActionView) -> bool {
    match action {
        ActionView::CountOutput { text: counted, .. } => counted == text,
        ActionView::Estimate(response) | ActionView::Respond(response) => response.content == seq![
            BlockContents::Text(text),
        ],
        _ => true,
    }
}

/// A whole reply takes the first text that it is handed, and no other: every count,
/// every estimate and the answer is of that text, whatever else comes before or
/// after, and whatever the counts say.
pub proof fn the_first_text_is_answered(
    setup: SetupView,
    inputs: Seq<InputView>,
    at: int,
    text: Seq<char>,
)
    requires
        0 <= at < inputs.len(),
        inputs[at] == InputView::Merged(text),
        forall|k: int| 0 <= k < at ==> (#[trigger] inputs[k]) !is Merged,
    ensures
        forall|k: int|
            0 <= k < setup.run(false, inputs).1.len() ==> carries_text(
                text,
                #[trigger] setup.run(false, inputs).1[k],
            ),
{
    first_text_is_kept(setup, inputs, at, text);
}

/// A whole reply that has had its first text stands with that text.
proof fn first_text_is_kept(setup: SetupView, inputs: Seq<InputView>, at: int, text: Seq<char>)
    requires
        0 <= at,
        at < inputs.len() ==> inputs[at] == InputView::Merged(text),
        forall|k: int| 0 <= k < at && k < inputs.len() ==> (#[trigger] inputs[k]) !is Merged,
    ensures
        match setup.run(false, inputs).0 {
            PhaseView::Merging => inputs.len() <= at,
            PhaseView::CountingTextInput(kept) => kept == text,
            PhaseView::CountingOutput { text: kept, .. } => kept == text,
            PhaseView::Estimating { text: kept, .. } => kept == text,
            PhaseView::Finished => true,
            _ => false,
        },
        inputs.len() <= at ==> setup.run(false, inputs).0 is Merging || setup.run(
            false,
            inputs,
        ).0 is Finished,
        forall|k: int|
            0 <= k < setup.run(false, inputs).1.len() ==> carries_text(
                text,
                #[trigger] setup.run(false, inputs).1[k],
            ),
    decreases inputs.len(),
{
    if inputs.len() > 0 {
        let before = inputs.drop_last();
        assert(forall|k: int| 0 <= k < before.len() ==> #[trigger] before[k] == inputs[k]);
        first_text_is_kept(setup, before, at, text);
        let last = inputs[inputs.len() - 1];
        let (phase, asked) = setup.run(false, before);
        let (next, more) = setup.step(phase, last);
        assert forall|k: int| 0 <= k < more.len() implies carries_text(
            text,
            #[trigger] more[k],
        ) by {}
        assert forall|k: int| 0 <= k < (asked + more).len() implies carries_text(
            text,
            #[trigger] (asked + more)[k],
        ) by {
            if k < asked.len() {
                assert((asked + more)[k] == asked[k]);
            } else {
                assert((asked + more)[k] == more[k - asked.len()]);
            }
        }
    }
}

/// A text that is complete is measured, wherever it came from: its tokens are
/// counted exactly where that is wanted and the model is known, and estimated if
/// not. The end of a stream without text settles it with no tokens at all.
pub proof fn complete_texts_are_measured(
    setup: SetupView,
    relay: RelayView,
    text: Seq<char>,
    counted: Option<u32>,
)
    ensures
        ({
            let known = match counted {
                Some(tokens) => tokens,
                None => setup.usage.input_tokens,
            };
            let ended = setup.step(PhaseView::Relaying(relay), InputView::End);
            let told = setup.step(
                PhaseView::CountingTextInput(text),
                InputView::InputCounted(counted),
            );
            &&& relay.text.len() == 0 && setup.has_cookie ==> ended == (
                PhaseView::Finished,
                seq![
                    ActionView::Record {
                        input_tokens: relay.input_tokens as u64,
                        output_tokens: 0,
                        family: match setup.model {
                            Some(model) => family_of(model),
                            None => ModelFamily::Other,
                        },
                    },
                    ActionView::Finish,
                ],
            )
            &&& relay.text.len() == 0 && !setup.has_cookie ==> ended == (
                PhaseView::Finished,
                seq![ActionView::Finish],
            )
            &&& relay.text.len() > 0 ==> is_measured(
                setup,
                relay.text,
                relay.input_tokens,
                false,
                ended,
            )
            &&& is_measured(setup, text, known, true, told)
            &&& !setup.precise ==> is_measured(
                setup,
                text,
                setup.usage.input_tokens,
                true,
                setup.step(PhaseView::Merging, InputView::Merged(text)),
            )
            &&& setup.precise ==> setup.step(PhaseView::Merging, InputView::Merged(text)) == (
                PhaseView::CountingTextInput(text),
                seq![ActionView::CountInput],
            )
        }),
{
}

/// The step asks for the count of the text, or for an estimate, and keeps the text
/// and the tokens of the request.
pub open spec fn is_measured(
    setup: SetupView,
    text: Seq<char>,
    input_tokens: u32,
    whole: bool,
    step: (PhaseView, Seq<ActionView>),
) -> bool {
    if setup.precise && setup.model is Some {
        step == (
            PhaseView::CountingOutput { text, input_tokens, whole },
            seq![ActionView::CountOutput { model: setup.model->0, text }],
        )
    } else {
        let known = if whole {
            setup.usage
        } else {
            Usage { input_tokens, output_tokens: 0 }
        };
        step == (
            PhaseView::Estimating { text, input_tokens, whole },
            seq![ActionView::Estimate(plain_reply(text, known))],
        )
    }
}

/// Tokens that are known are settled in the same way wherever a reply stands: of a
/// whole one they are put on the totals of the session, and the client is answered
/// with the text that was kept; of a streamed one they are put on record by the
/// cookie, if there is one, for the family of the model, and the stream is ended.
/// A count that fails is followed by an estimate of the text that was kept.
pub proof fn known_tokens_are_settled(
    setup: SetupView,
    text: Seq<char>,
    input_tokens: u32,
    output_tokens: u32,
    whole: bool,
)
    ensures
        ({
            let counting = PhaseView::CountingOutput { text, input_tokens, whole };
            let estimating = PhaseView::Estimating { text, input_tokens, whole };
            let family = match setup.model {
                Some(model) => family_of(model),
                None => ModelFamily::Other,
            };
            let settled = if whole {
                seq![
                    ActionView::Persist {
                        input_tokens: input_tokens as u64,
                        output_tokens: output_tokens as u64,
                    },
                    ActionView::Respond(
                        plain_reply(text, Usage { input_tokens, output_tokens }),
                    ),
                ]
            } else if setup.has_cookie {
                seq![
                    ActionView::Record {
                        input_tokens: input_tokens as u64,
                        output_tokens: output_tokens as u64,
                        family,
                    },
                    ActionView::Finish,
                ]
            } else {
                seq![ActionView::Finish]
            };
            let known = if whole {
                setup.usage
            } else {
                Usage { input_tokens, output_tokens: 0 }
            };
            &&& setup.step(counting, InputView::OutputCounted(Some(output_tokens))) == (
                PhaseView::Finished,
                settled,
            )
            &&& setup.step(estimating, InputView::Estimated(output_tokens)) == (
                PhaseView::Finished,
                settled,
            )
            &&& setup.step(counting, InputView::OutputCounted(None)) == (
                estimating,
                seq![ActionView::Estimate(plain_reply(text, known))],
            )
        }),
{
}

/// The texts of events add up: none of them have no text, a single one has its
/// own, and those of two runs of events come one after the other.
pub proof fn merging_adds_up(event: EventView, one: Seq<EventView>, other: Seq<EventView>)
    ensures
        merged(Seq::<EventView>::empty()).len() == 0,
        event.completion matches Some(text) ==> merged(seq![event]) == text,
        event.completion is None ==> merged(seq![event]).len() == 0,
        merged(one + other) == merged(one) + merged(other),
    decreases other.len(),
{
    assert(seq![event].drop_last() =~= Seq::<EventView>::empty());
    assert(merged(seq![event].drop_last()) =~= Seq::<char>::empty());
    if let Some(text) = event.completion {
        assert(Seq::<char>::empty() + text =~= text);
    }
    if other.len() == 0 {
        assert(one + other =~= one);
        assert(merged(one) + merged(other) =~= merged(one));
    } else {
        merging_adds_up(event, one, other.drop_last());
        assert((one + other).drop_last() =~= one + other.drop_last());
        let last = crate::relay::completed(other.last().completion);
        assert((merged(one) + merged(other.drop_last())) + last =~= merged(one) + (merged(
            other.drop_last(),
        ) + last));
    }
}

/// A streamed reply that is not ended for a tool is settled at its end. Its text
/// is that of its events. Without any text, its tokens are none. With text, they
/// are counted, or estimated where that is not wanted, not possible or fails. They
/// are put on record for the family of the model, if there is a cookie to keep
/// them by; and the stream is ended.
pub proof fn streamed_replies_are_settled(
    setup: SetupView,
    heard: Seq<Heard>,
    read: Option<u32>,
    written: Option<u32>,
    estimate: u32,
)
    requires
        !RelayView::fresh(setup.has_tools, read_tokens(setup, read)).after_all(
            heard,
        ).tool_call_break,
    ensures
        ({
            let text = merged(events_of(heard));
            let events = opening(setup, read) + handed_in(heard);
            let relayed = setup.run(true, events).1;
            let input_tokens = read_tokens(setup, read);
            let estimating = ActionView::Estimate(
                plain_reply(text, Usage { input_tokens, output_tokens: 0 }),
            );
            let family = match setup.model {
                Some(model) => family_of(model),
                None => ModelFamily::Other,
            };
            let settled = |output_tokens: u32|
                if setup.has_cookie {
                    seq![
                        ActionView::Record {
                            input_tokens: input_tokens as u64,
                            output_tokens: output_tokens as u64,
                            family,
                        },
                        ActionView::Finish,
                    ]
                } else {
                    seq![ActionView::Finish]
                };
            let ended = events.push(InputView::End);
            &&& text.len() == 0 ==> setup.run(true, ended) == (
                PhaseView::Finished,
                relayed + settled(0),
            )
            &&& text.len() > 0 && (!setup.precise || setup.model is None) ==> setup.run(
                true,
                ended.push(InputView::Estimated(estimate)),
            ) == (PhaseView::Finished, relayed + seq![estimating] + settled(estimate))
            &&& text.len() > 0 && setup.precise ==> (setup.model matches Some(model) ==> ({
                let counting = ActionView::CountOutput { model, text };
                &&& written matches Some(output_tokens) ==> setup.run(
                    true,
                    ended.push(InputView::OutputCounted(written)),
                ) == (PhaseView::Finished, relayed + seq![counting] + settled(output_tokens))
                &&& written is None ==> setup.run(
                    true,
                    ended.push(InputView::OutputCounted(written)).push(
                        InputView::Estimated(estimate),
                    ),
                ) == (
                    PhaseView::Finished,
                    relayed + seq![counting, estimating] + settled(estimate),
                )
            }))
        }),
{
    let text = merged(events_of(heard));
    let events = opening(setup, read) + handed_in(heard);
    let input_tokens = read_tokens(setup, read);
    let fresh = watching(setup.has_tools, input_tokens);
    assert(fresh == RelayView::fresh(setup.has_tools, input_tokens));
    relays_on(setup, read, heard);
    streamed_text_is_merged_text(setup.has_tools, input_tokens, heard);
    let relay = fresh.after_all(heard);
    tokens_and_tools_stay(fresh, heard);
    let ended = events.push(InputView::End);
    run_goes_on(setup, true, events, InputView::End);
    if text.len() > 0 {
        if setup.precise && setup.model is Some {
            let measured = ended.push(InputView::OutputCounted(written));
            run_goes_on(setup, true, ended, InputView::OutputCounted(written));
            run_goes_on(setup, true, measured, InputView::Estimated(estimate));
            if written is None {
                let counting = ActionView::CountOutput { model: setup.model->0, text };
                let estimating = ActionView::Estimate(
                    plain_reply(text, Usage { input_tokens, output_tokens: 0 }),
                );
                let relayed = setup.run(true, events).1;
                assert(relayed + seq![counting] + seq![estimating] =~= relayed + seq![
                    counting,
                    estimating,
                ]);
            }
        } else {
            run_goes_on(setup, true, ended, InputView::Estimated(estimate));
        }
    }
}

/// The action is one that a streamed reply with these tokens may ask for. Its
/// tokens are put on record only by a cookie, for the family of the model; they
/// are the written ones, or none for a reply without text.
pub open spec fn may_be_streamed(
    setup: SetupView,
    read: u32,
    written: u32,
    action: ActionView,
) -> bool {
    match action {
        ActionView::CountInput | ActionView::CountOutput { .. } => setup.precise && (
        action matches ActionView::CountOutput { model, .. } ==> setup.model == Some(model)),
        ActionView::Register(_) => setup.has_tools,
        ActionView::Estimate(response) => response.content.len() == 1 && response == plain_reply(
            response.content[0]->Text_0,
            Usage { input_tokens: read, output_tokens: 0 },
        ),
        ActionView::Record { input_tokens, output_tokens, family } => {
            &&& setup.has_cookie
            &&& input_tokens == read
            &&& output_tokens == written || output_tokens == 0
            &&& setup.model matches Some(model) ==> family == family_of(model)
            &&& setup.model is None ==> family == ModelFamily::Other
        },
        ActionView::Next | ActionView::Send(_) | ActionView::Finish | ActionView::Fail => true,
        ActionView::Merge | ActionView::Persist { .. } | ActionView::Respond(_) => false,
    }
}

/// A streamed reply stands somewhere on its way, with these tokens.
spec fn keeps_tokens(
    setup: SetupView,
    read: u32,
    written: Option<u32>,
    phase: PhaseView,
) -> bool {
    match phase {
        PhaseView::Finished => true,
        PhaseView::CountingStreamInput => setup.precise,
        PhaseView::Relaying(relay) => relay.input_tokens == read && relay.has_tools
            == setup.has_tools,
        PhaseView::CountingOutput { input_tokens, whole, .. } => input_tokens == read && !whole
            && setup.precise && setup.model is Some,
        PhaseView::Estimating { input_tokens, whole, .. } => input_tokens == read && !whole
            && !(setup.precise && setup.model is Some && written is Some),
        _ => false,
    }
}

/// Whatever is handed to a streamed reply, in whatever order and however often, as
/// long as it tells of the same counts: the tokens that are put on record, and
/// those that an estimate starts from, are the counted ones where exact counts are
/// wanted and were got, and those known before or estimated if not. A streamed
/// reply merges no text, gives no answer besides its events, and registers no call
/// where the request has no tools.
pub proof fn streamed_replies_keep_their_tokens(
    setup: SetupView,
    inputs: Seq<InputView>,
    read: Option<u32>,
    written: Option<u32>,
    estimate: u32,
)
    requires
        forall|k: int|
            0 <= k < inputs.len() ==> match #[trigger] inputs[k] {
                InputView::InputCounted(tokens) => tokens == read,
                InputView::OutputCounted(tokens) => tokens == written,
                InputView::Estimated(tokens) => tokens == estimate,
                _ => true,
            },
    ensures
        forall|k: int|
            0 <= k < setup.run(true, inputs).1.len() ==> may_be_streamed(
                setup,
                read_tokens(setup, read),
                written_tokens(setup, written, estimate),
                #[trigger] setup.run(true, inputs).1[k],
            ),
{
    tokens_are_kept(setup, inputs, read, written, estimate);
}

/// A streamed reply stands with its tokens after any inputs that agree.
proof fn tokens_are_kept(
    setup: SetupView,
    inputs: Seq<InputView>,
    read: Option<u32>,
    written: Option<u32>,
    estimate: u32,
)
    requires
        forall|k: int|
            0 <= k < inputs.len() ==> match #[trigger] inputs[k] {
                InputView::InputCounted(tokens) => tokens == read,
                InputView::OutputCounted(tokens) => tokens == written,
                InputView::Estimated(tokens) => tokens == estimate,
                _ => true,
            },
    ensures
        keeps_tokens(setup, read_tokens(setup, read), written, setup.run(true, inputs).0),
        forall|k: int|
            0 <= k < setup.run(true, inputs).1.len() ==> may_be_streamed(
                setup,
                read_tokens(setup, read),
                written_tokens(setup, written, estimate),
                #[trigger] setup.run(true, inputs).1[k],
            ),
    decreases inputs.len(),
{
    if inputs.len() > 0 {
        let before = inputs.drop_last();
        assert(forall|k: int| 0 <= k < before.len() ==> #[trigger] before[k] == inputs[k]);
        tokens_are_kept(setup, before, read, written, estimate);
        let last = inputs[inputs.len() - 1];
        let (phase, asked) = setup.run(true, before);
        let (next, more) = setup.step(phase, last);
        if let (PhaseView::Relaying(relay), InputView::Event(event, fields)) = (phase, last) {
            relayed_events_are_sent(setup, relay, event, fields);
            let sent = relay.relays(event, fields);
            assert forall|k: int| 0 <= k < more.len() implies may_be_streamed(
                setup,
                read_tokens(setup, read),
                written_tokens(setup, written, estimate),
                #[trigger] more[k],
            ) by {
                if k < sent.len() {
                    assert(more[k] == ActionView::Send(sent[k]));
                }
            }
        }
        assert forall|k: int| 0 <= k < (asked + more).len() implies may_be_streamed(
            setup,
            read_tokens(setup, read),
            written_tokens(setup, written, estimate),
            #[trigger] (asked + more)[k],
        ) by {
            if k < asked.len() {
                assert((asked + more)[k] == asked[k]);
            } else {
                assert((asked + more)[k] == more[k - asked.len()]);
            }
        }
    }
}

/// An event ends a relayed reply for a tool exactly if it registers a call; and
/// then what the second and third action send reads as what they are to say.
pub proof fn ends_for_tools_are_told(
    relay: RelayView,
    event: EventView,
    fields: Option<FieldsView>,
    actions: Seq<ActionView>,
    delta: OutgoingView,
    stop: OutgoingView,
)
    requires
        actions[1] == ActionView::Send(delta),
        actions[2] == ActionView::Send(stop),
    ensures
        ends_for_tool(PhaseView::Relaying(relay), InputView::Event(event, fields))
            <==> relay.registers(fields) is Some,
        tells_tool_stop(actions) <==> json_parse(delta.data) == Some(message_delta_json())
            && json_parse(stop.data) == Some(message_stop_json()),
{
}

/// Events change neither the tokens of the request nor whether it has tools.
pub proof fn tokens_and_tools_stay(relay: RelayView, heard: Seq<Heard>)
    ensures
        relay.after_all(heard).input_tokens == relay.input_tokens,
        relay.after_all(heard).has_tools == relay.has_tools,
    decreases heard.len(),
{
    if heard.len() > 0 {
        tokens_and_tools_stay(relay, heard.drop_last());
    }
}

/// An upstream error ends a reply of which text is still awaited, and is passed on
/// to the client. Once the text is there, an error is not looked for.
pub proof fn errors_are_passed_on(setup: SetupView, phase: PhaseView)
    ensures
        phase is Merging || phase is Relaying ==> setup.step(phase, InputView::Failed) == (
            PhaseView::Finished,
            seq![ActionView::Fail],
        ),
        !(phase is Merging || phase is Relaying) ==> setup.step(phase, InputView::Failed) == (
            phase,
            Seq::<ActionView>::empty(),
        ),
{
}

/// What is not awaited changes nothing: counts of the request outside the two
/// phases that wait for one, and likewise events, the end of them, texts, counts
/// of the reply and estimates.
pub proof fn only_what_is_awaited_counts(setup: SetupView, phase: PhaseView, input: InputView)
    requires
        match input {
            InputView::InputCounted(_) => phase !is CountingStreamInput && phase
                !is CountingTextInput,
            InputView::Event(_, _) | InputView::End => phase !is Relaying,
            InputView::Merged(_) => phase !is Merging,
            InputView::Failed => phase !is Relaying && phase !is Merging,
            InputView::OutputCounted(_) => phase !is CountingOutput,
            InputView::Estimated(_) => phase !is Estimating,
        },
    ensures
        setup.step(phase, input) == (phase, Seq::<ActionView>::empty()),
{
}

} // verus!
