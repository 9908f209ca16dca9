//! What the client gets for an event, told from the JSON in its data.
use super::Heard;
use super::reading::{holds, holds_text, holds_unsigned, Fields};
use crate::event::{event_fields, EventView, FieldsView, OutgoingView};
use crate::json::{json_print, JsonView};
use crate::relay::{injected, message_delta_json, message_stop_json, types_differ, RelayView};
use vstd::prelude::*;

verus! {

/// The object tells of the start of the block `block`.
pub open spec fn tells_start(event: Fields, block: Fields) -> bool {
    &&& holds(event, "type"@, JsonView::Text("content_block_start"@))
    &&& holds(event, "content_block"@, JsonView::Object(block))
}

/// The block carries a mark of a tool that the service runs: a name that begins
/// as the built-in ones do, a message, or the name of an integration.
pub open spec fn carries_service_mark(block: Fields) -> bool {
    ||| exists|rest: Seq<char>|
        holds(block, "name"@, JsonView::Text(#[trigger] ("builtin_"@ + rest)))
    ||| holds_text(block, "message"@)
    ||| holds_text(block, "integration_name"@)
}

/// The event as the client would get it: with the same name, identifier, data and
/// retry time.
pub open spec fn same_event(event: EventView) -> OutgoingView {
    OutgoingView {
        event: event.event,
        id: Some(event.id),
        data: event.data,
        retry_ms: event.retry_ms,
    }
}

/// The client gets the event, and that alone, unless it is about limits; nothing
/// is registered.
pub open spec fn is_passed_on(relay: RelayView, event: EventView, fields: Option<FieldsView>) -> bool {
    &&& event.event != "message_limit"@ ==> relay.relays(event, fields) == seq![same_event(event)]
    &&& event.event == "message_limit"@ ==> relay.relays(event, fields).len() == 0
    &&& relay.registers(fields) is None
}

/// The client gets nothing; nothing is registered.
pub open spec fn is_held_back(relay: RelayView, event: EventView, fields: Option<FieldsView>) -> bool {
    &&& relay.relays(event, fields).len() == 0
    &&& relay.registers(fields) is None
}

/// The relay has only heard the text of the event.
pub open spec fn only_heard(before: RelayView, event: EventView, after: RelayView) -> bool {
    &&& after.has_tools == before.has_tools
    &&& after.input_tokens == before.input_tokens
    &&& after.tool_use_id == before.tool_use_id
    &&& after.tool_use_index == before.tool_use_index
    &&& after.suppressed_indices == before.suppressed_indices
    &&& after.tool_call_break == before.tool_call_break
    &&& heard_text(before, event, after)
}

/// The relay has heard the text of the event.
pub open spec fn heard_text(before: RelayView, event: EventView, after: RelayView) -> bool {
    &&& event.completion matches Some(text) ==> after.text == before.text + text
    &&& event.completion is None ==> after.text == before.text
}

/// A block that the service keeps to itself is held back where it starts: the use
/// of a tool with any mark of the service, or with several, or the result of a
/// tool. Its index, if it has one, is suppressed from there on; an open call of a
/// tool of the client is not touched.
pub proof fn service_blocks_are_held_back(
    relay: RelayView,
    event: EventView,
    json: Fields,
    block: Fields,
)
    requires
        !relay.tool_call_break,
        tells_start(json, block),
        holds(block, "type"@, JsonView::Text("tool_result"@)) || (holds(
            block,
            "type"@,
            JsonView::Text("tool_use"@),
        ) && carries_service_mark(block)),
    ensures
        ({
            let fields = Some(event_fields(JsonView::Object(json)));
            let after = relay.after(event, fields);
            &&& is_held_back(relay, event, fields)
            &&& after.has_tools == relay.has_tools
            &&& after.input_tokens == relay.input_tokens
            &&& after.tool_use_id == relay.tool_use_id
            &&& after.tool_use_index == relay.tool_use_index
            &&& !after.tool_call_break
            &&& heard_text(relay, event, after)
            &&& forall|index: u64|
                #[trigger] holds(json, "index"@, JsonView::Unsigned(index))
                    ==> after.suppressed_indices == relay.suppressed_indices.insert(index as usize)
            &&& !holds_unsigned(json, "index"@) ==> after.suppressed_indices
                == relay.suppressed_indices
        }),
{
    types_differ();
    if exists|rest: Seq<char>|
        holds(block, "name"@, JsonView::Text(#[trigger] ("builtin_"@ + rest))) {
        let rest = choose|rest: Seq<char>|
            holds(block, "name"@, JsonView::Text(#[trigger] ("builtin_"@ + rest)));
        super::reading::a_prefix_can_be_completed("builtin_"@ + rest, "builtin_"@);
    }
    if event.completion is None {
        assert(relay.text + Seq::<char>::empty() =~= relay.text);
    }
}

/// The use of a tool without any mark of the service is passed on where it
/// starts. If the request has tools, it is the open call of a tool of the client,
/// with its identifier and index; if not, it is an event like any other.
pub proof fn client_tools_are_opened(
    relay: RelayView,
    event: EventView,
    json: Fields,
    block: Fields,
)
    requires
        !relay.tool_call_break,
        tells_start(json, block),
        holds(block, "type"@, JsonView::Text("tool_use"@)),
        !carries_service_mark(block),
    ensures
        ({
            let fields = Some(event_fields(JsonView::Object(json)));
            let after = relay.after(event, fields);
            &&& is_passed_on(relay, event, fields)
            &&& !relay.has_tools ==> only_heard(relay, event, after)
            &&& after.has_tools == relay.has_tools
            &&& after.input_tokens == relay.input_tokens
            &&& after.suppressed_indices == relay.suppressed_indices
            &&& !after.tool_call_break
            &&& heard_text(relay, event, after)
            &&& relay.has_tools ==> ({
                &&& forall|id: Seq<char>|
                    #[trigger] holds(block, "id"@, JsonView::Text(id)) ==> after.tool_use_id
                        == Some(id)
                &&& !holds_text(block, "id"@) ==> after.tool_use_id == Some(Seq::<char>::empty())
                &&& forall|index: u64|
                    #[trigger] holds(json, "index"@, JsonView::Unsigned(index))
                        ==> after.tool_use_index == Some(index as usize)
                &&& !holds_unsigned(json, "index"@) ==> after.tool_use_index is None
            })
        }),
{
    types_differ();
    let read = event_fields(JsonView::Object(json)).block->0;
    super::reading::a_prefix_can_be_completed(read.name, "builtin_"@);
    if crate::text::begins_with(read.name, "builtin_"@) {
        let rest = choose|rest: Seq<char>| read.name == #[trigger] ("builtin_"@ + rest);
        if holds_text(block, "name"@) {
            assert(holds(block, "name"@, JsonView::Text("builtin_"@ + rest)));
        } else {
            reveal_strlit("builtin_");
            assert(("builtin_"@ + rest).len() >= 8);
        }
        assert(false);
    }
    if event.completion is None {
        assert(relay.text + Seq::<char>::empty() =~= relay.text);
    }
    if !holds_text(block, "id"@) {
        assert(read.id =~= Seq::<char>::empty());
    }
}

/// An event that starts no tool use and no tool result, and belongs to no block,
/// is passed on, and only its text is heard: one without JSON, with JSON that is
/// no object, of another type, or about a block of another type.
pub proof fn plain_events_are_passed_on(
    relay: RelayView,
    event: EventView,
    data: Option<JsonView>,
)
    requires
        !relay.tool_call_break,
        data matches Some(JsonView::Object(json)) ==> {
            &&& !holds(json, "type"@, JsonView::Text("content_block_delta"@))
            &&& !holds(json, "type"@, JsonView::Text("content_block_stop"@))
            &&& holds(json, "type"@, JsonView::Text("content_block_start"@)) && json.contains_key(
                "content_block"@,
            ) ==> (json["content_block"@] matches JsonView::Object(block) ==> {
                &&& !holds(block, "type"@, JsonView::Text("tool_use"@))
                &&& !holds(block, "type"@, JsonView::Text("tool_result"@))
            })
        },
    ensures
        ({
            let fields = match data {
                Some(json) => Some(event_fields(json)),
                None => None,
            };
            &&& is_passed_on(relay, event, fields)
            &&& only_heard(relay, event, relay.after(event, fields))
        }),
{
    types_differ();
    reveal_strlit("tool_use");
    reveal_strlit("tool_result");
    reveal_strlit("content_block_start");
    reveal_strlit("content_block_stop");
    reveal_strlit("content_block_delta");
    assert("tool_use"@.len() > 0);
    assert("tool_result"@.len() > 0);
    assert("content_block_start"@.len() > 0);
    assert("content_block_stop"@.len() > 0);
    assert("content_block_delta"@.len() > 0);
    if event.completion is None {
        assert(relay.text + Seq::<char>::empty() =~= relay.text);
    }
}

/// An event of a block that started earlier is held back exactly if its index is
/// suppressed. Otherwise it is passed on, but for the end of an open tool call.
/// Either way only its text is heard.
pub proof fn later_events_go_by_their_index(
    relay: RelayView,
    event: EventView,
    json: Fields,
    index: Option<u64>,
)
    requires
        !relay.tool_call_break,
        holds(json, "type"@, JsonView::Text("content_block_delta"@)) || holds(
            json,
            "type"@,
            JsonView::Text("content_block_stop"@),
        ),
        index matches Some(i) ==> holds(json, "index"@, JsonView::Unsigned(i)),
        index is None ==> !holds_unsigned(json, "index"@),
    ensures
        ({
            let fields = Some(event_fields(JsonView::Object(json)));
            let suppressed = index matches Some(i) && relay.suppressed_indices.contains(i as usize);
            let same_index = match index {
                Some(i) => relay.tool_use_index == Some(i as usize),
                None => relay.tool_use_index is None,
            };
            let ends_call = relay.has_tools && relay.tool_use_id is Some && same_index && holds(
                json,
                "type"@,
                JsonView::Text("content_block_stop"@),
            );
            &&& suppressed ==> is_held_back(relay, event, fields) && only_heard(
                relay,
                event,
                relay.after(event, fields),
            )
            &&& !suppressed && !ends_call ==> is_passed_on(relay, event, fields) && only_heard(
                relay,
                event,
                relay.after(event, fields),
            )
        }),
{
    types_differ();
    if event.completion is None {
        assert(relay.text + Seq::<char>::empty() =~= relay.text);
    }
}

/// Deltas, however many, leave a relay as it was but for the text.
pub proof fn deltas_change_the_text_only(relay: RelayView, heard: Seq<Heard>)
    requires
        !relay.tool_call_break,
        forall|k: int|
            0 <= k < heard.len() ==> exists|json: Fields|
                holds(json, "type"@, JsonView::Text("content_block_delta"@)) && (
                #[trigger] heard[k]).1 == Some(#[trigger] event_fields(JsonView::Object(json))),
    ensures
        relay.after_all(heard) == (RelayView { text: relay.after_all(heard).text, ..relay }),
    decreases heard.len(),
{
    if heard.len() > 0 {
        let before = heard.drop_last();
        assert forall|k: int| 0 <= k < before.len() implies exists|json: Fields|
            holds(json, "type"@, JsonView::Text("content_block_delta"@)) && (
            #[trigger] before[k]).1 == Some(#[trigger] event_fields(JsonView::Object(json))) by {
            assert(before[k] == heard[k]);
        }
        deltas_change_the_text_only(relay, before);
        types_differ();
        reveal_strlit("content_block_delta");
        reveal_strlit("content_block_stop");
        let last = heard[heard.len() - 1];
        let json = choose|json: Fields|
            holds(json, "type"@, JsonView::Text("content_block_delta"@)) && last.1 == Some(
                #[trigger] event_fields(JsonView::Object(json)),
            );
        assert(last.1->0.event_type == "content_block_delta"@);
        assert(!last.1->0.is_stop());
    }
}

/// The end of an open tool call is passed on, whatever the event is called, and
/// followed by an event that says that the reply stops for a tool, and one that
/// ends it. The call is registered, and the reply has ended.
pub proof fn the_end_of_a_call_ends_the_reply(
    relay: RelayView,
    event: EventView,
    json: Fields,
    index: Option<u64>,
    id: Seq<char>,
)
    requires
        relay.has_tools,
        !relay.tool_call_break,
        relay.tool_use_id == Some(id),
        holds(json, "type"@, JsonView::Text("content_block_stop"@)),
        index matches Some(i) ==> holds(json, "index"@, JsonView::Unsigned(i))
            && relay.tool_use_index == Some(i as usize) && !relay.suppressed_indices.contains(
            i as usize,
        ),
        index is None ==> !holds_unsigned(json, "index"@) && relay.tool_use_index is None,
    ensures
        ({
            let fields = Some(event_fields(JsonView::Object(json)));
            let after = relay.after(event, fields);
            let sent = relay.relays(event, fields);
            &&& sent.len() == 3
            &&& sent[0] == same_event(event)
            &&& sent[1] == (OutgoingView {
                event: "message_delta"@,
                id: None,
                data: json_print(message_delta_json()),
                retry_ms: None,
            })
            &&& sent[2] == (OutgoingView {
                event: "message_stop"@,
                id: None,
                data: json_print(message_stop_json()),
                retry_ms: None,
            })
            &&& relay.registers(fields) == Some(id)
            &&& after.tool_call_break
            &&& after.tool_use_id is None
            &&& after.has_tools
            &&& after.input_tokens == relay.input_tokens
            &&& after.tool_use_index == relay.tool_use_index
            &&& after.suppressed_indices == relay.suppressed_indices
            &&& heard_text(relay, event, after)
        }),
{
    types_differ();
    if event.completion is None {
        assert(relay.text + Seq::<char>::empty() =~= relay.text);
    }
}

/// The event that says that a reply stops for a tool has its type, the reason, no
/// sequence, and no tokens; the one that ends a reply has its type. Neither has
/// any other field.
pub proof fn injected_events_say_what_they_are()
    ensures
        message_delta_json() matches JsonView::Object(fields) && ({
            &&& fields.dom() == set!["type"@, "delta"@, "usage"@]
            &&& fields["type"@] == JsonView::Text("message_delta"@)
            &&& fields["delta"@] matches JsonView::Object(delta) && ({
                &&& delta.dom() == set!["stop_reason"@, "stop_sequence"@]
                &&& delta["stop_reason"@] == JsonView::Text("tool_use"@)
                &&& delta["stop_sequence"@] == JsonView::Null
            })
            &&& fields["usage"@] matches JsonView::Object(usage) && ({
                &&& usage.dom() == set!["output_tokens"@]
                &&& usage["output_tokens"@] == JsonView::Unsigned(0)
            })
        }),
        message_stop_json() matches JsonView::Object(fields) && ({
            &&& fields.dom() == set!["type"@]
            &&& fields["type"@] == JsonView::Text("message_stop"@)
        }),
        forall|name: Seq<char>, json: JsonView|
            #![trigger injected(name, json)]
            injected(name, json).event == name && injected(name, json).data == json_print(json)
                && injected(name, json).id is None && injected(name, json).retry_ms is None,
{
    reveal_strlit("type");
    reveal_strlit("delta");
    reveal_strlit("usage");
    reveal_strlit("stop_reason");
    reveal_strlit("stop_sequence");
    assert("type"@.len() == 4);
    assert("delta"@.len() == 5);
    assert("usage"@[0] == 'u');
    assert("delta"@[0] == 'd');
    assert("stop_reason"@.len() == 11);
    assert("stop_sequence"@.len() == 13);
    let fields = message_delta_json()->Object_0;
    assert(fields.dom() =~= set!["type"@, "delta"@, "usage"@]);
    let delta = fields["delta"@]->Object_0;
    assert(delta.dom() =~= set!["stop_reason"@, "stop_sequence"@]);
    let usage = fields["usage"@]->Object_0;
    assert(usage.dom() =~= set!["output_tokens"@]);
    assert(message_stop_json()->Object_0.dom() =~= set!["type"@]);
}

/// A relay starts with what it is told, and has heard, opened, suppressed and
/// ended nothing.
pub proof fn a_relay_starts_fresh(has_tools: bool, input_tokens: u32, index: usize)
    ensures
        ({
            let fresh = RelayView::fresh(has_tools, input_tokens);
            &&& fresh.has_tools == has_tools
            &&& fresh.input_tokens == input_tokens
            &&& fresh.text.len() == 0
            &&& fresh.tool_use_id is None
            &&& fresh.tool_use_index is None
            &&& !fresh.suppressed_indices.contains(index)
            &&& !fresh.tool_call_break
        }),
{
}

/// An event that goes on to the client has the name, identifier, data and retry
/// time that it came with.
pub proof fn forwarded_events_are_the_same(event: EventView)
    ensures
        event.forwarded().event == event.event,
        event.forwarded().id == Some(event.id),
        event.forwarded().data == event.data,
        event.forwarded().retry_ms == event.retry_ms,
{
}

} // verus!
