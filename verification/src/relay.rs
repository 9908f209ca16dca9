//! The relay of a streamed reply. Events of blocks that concern the service
//! alone are held back. Where a tool of the client has been called, the relay
//! ends the reply, so that the client can run the tool.
use crate::event::{
    fields_view, EventFields, EventView, FieldsView, OutgoingEvent, OutgoingView, StreamEvent,
};
use crate::json::{
    insert_field, json_parse, json_print, new_fields, null_value, object_value, print_json, reserved_key,
    reserved_key_len, text_value, unsigned_value,
    JsonView,
};
use crate::text::{same_text, text_view};
use std::collections::HashSet;
use vstd::prelude::*;
use vstd::string::StringExecFns;

verus! {

broadcast use vstd::std_specs::hash::group_hash_axioms;

/// What a relay has learned of a reply so far.
#[derive(Debug)]
pub struct EventRelay {
    pub has_tools: bool,
    pub input_tokens: u32,
    pub text: String,
    pub tool_use_id: Option<String>,
    pub tool_use_index: Option<usize>,
    pub suppressed_indices: HashSet<usize>,
    pub tool_call_break: bool,
}

/// What an `EventRelay` holds.
#[verifier::ext_equal]
pub struct RelayView {
    pub has_tools: bool,
    pub input_tokens: u32,
    pub text: Seq<char>,
    pub tool_use_id: Option<Seq<char>>,
    pub tool_use_index: Option<usize>,
    pub suppressed_indices: Set<usize>,
    pub tool_call_break: bool,
}

impl View for EventRelay {
    type V = RelayView;

    open spec fn view(&self) -> RelayView {
        RelayView {
            has_tools: self.has_tools,
            input_tokens: self.input_tokens,
            text: self.text@,
            tool_use_id: text_view(self.tool_use_id),
            tool_use_index: self.tool_use_index,
            suppressed_indices: self.suppressed_indices@,
            tool_call_break: self.tool_call_break,
        }
    }
}

/// The data of the event by which a reply says that it stops for a tool.
pub open spec fn message_delta_json() -> JsonView {
    JsonView::Object(
        Map::empty().insert("type"@, JsonView::Text("message_delta"@)).insert(
            "delta"@,
            JsonView::Object(
                Map::empty().insert("stop_reason"@, JsonView::Text("tool_use"@)).insert(
                    "stop_sequence"@,
                    JsonView::Null,
                ),
            ),
        ).insert(
            "usage"@,
            JsonView::Object(Map::empty().insert("output_tokens"@, JsonView::Unsigned(0))),
        ),
    )
}

/// The data of the event that ends a reply.
pub open spec fn message_stop_json() -> JsonView {
    JsonView::Object(Map::empty().insert("type"@, JsonView::Text("message_stop"@)))
}

/// An event that the relay itself puts into a reply.
pub open spec fn injected(event: Seq<char>, json: JsonView) -> OutgoingView {
    OutgoingView { event, id: None, data: json_print(json), retry_ms: None }
}

/// The text that an event adds to the reply.
pub open spec fn completed(completion: Option<Seq<char>>) -> Seq<char> {
    match completion {
        Some(text) => text,
        None => Seq::empty(),
    }
}

impl RelayView {
    /// A relay at the start of a reply.
    pub open spec fn fresh(has_tools: bool, input_tokens: u32) -> RelayView {
        RelayView {
            has_tools,
            input_tokens,
            text: Seq::empty(),
            tool_use_id: None,
            tool_use_index: None,
            suppressed_indices: Set::empty(),
            tool_call_break: false,
        }
    }

    /// An event with these fields concerns the service alone: it starts an
    /// internal block, or belongs to one.
    pub open spec fn hides(self, fields: FieldsView) -> bool {
        ||| fields.started() matches Some(block) && block.is_internal()
        ||| fields.is_tail() && (fields.index matches Some(index)
            && self.suppressed_indices.contains(index))
    }

    /// An event with these fields ends the call of a tool of the client.
    pub open spec fn ends_tool(self, fields: FieldsView) -> bool {
        &&& self.has_tools
        &&& fields.is_stop()
        &&& !self.hides(fields)
        &&& self.tool_use_id is Some
        &&& self.tool_use_index == fields.index
    }

    /// What is remembered of the fields of an event.
    pub open spec fn noted(self, fields: FieldsView) -> RelayView {
        match fields.started() {
            Some(block) => if block.is_internal() {
                match fields.index {
                    Some(index) => RelayView {
                        suppressed_indices: self.suppressed_indices.insert(index),
                        ..self
                    },
                    None => self,
                }
            } else if block.is_client_tool() && self.has_tools {
                RelayView {
                    tool_use_id: Some(block.id),
                    tool_use_index: fields.index,
                    ..self
                }
            } else {
                self
            },
            None => if self.ends_tool(fields) {
                RelayView { tool_use_id: None, tool_call_break: true, ..self }
            } else {
                self
            },
        }
    }

    /// The relay after an event. One that has ended the reply stays as it is.
    pub open spec fn after(self, event: EventView, fields: Option<FieldsView>) -> RelayView {
        if self.tool_call_break {
            self
        } else {
            let heard = RelayView { text: self.text + completed(event.completion), ..self };
            match fields {
                Some(f) => heard.noted(f),
                None => heard,
            }
        }
    }

    /// The event ends the reply: a tool of the client has been called.
    pub open spec fn breaks_at(self, fields: Option<FieldsView>) -> bool {
        !self.tool_call_break && (fields matches Some(f) && self.ends_tool(f))
    }

    /// The event is not passed on.
    pub open spec fn withholds(self, event: EventView, fields: Option<FieldsView>) -> bool {
        ||| self.tool_call_break
        ||| fields matches Some(f) && self.hides(f)
        ||| event.event == "message_limit"@ && !self.breaks_at(fields)
    }

    /// What the client gets for an event: the end of a tool call and of the
    /// reply, nothing, or the event itself.
    pub open spec fn relays(self, event: EventView, fields: Option<FieldsView>) -> Seq<
        OutgoingView,
    > {
        if self.withholds(event, fields) {
            Seq::empty()
        } else if self.breaks_at(fields) {
            seq![
                event.forwarded(),
                injected("message_delta"@, message_delta_json()),
                injected("message_stop"@, message_stop_json()),
            ]
        } else {
            seq![event.forwarded()]
        }
    }

    /// The tool call that waits for its result from this event on.
    pub open spec fn registers(self, fields: Option<FieldsView>) -> Option<Seq<char>> {
        if self.breaks_at(fields) {
            self.tool_use_id
        } else {
            None
        }
    }
}

/// What comes of an event: the events for the client, and the tool call to be
/// registered.
#[derive(Clone, Debug)]
pub struct Relayed {
    pub events: Vec<OutgoingEvent>,
    pub register: Option<String>,
}

/// What the events for the client hold.
pub open spec fn outgoing_view(events: Seq<OutgoingEvent>) -> Seq<OutgoingView> {
    events.map_values(|event: OutgoingEvent| event@)
}

/// An event that says that the reply stops for a tool.
fn message_delta() -> (event: OutgoingEvent)
    ensures
        event@ == injected("message_delta"@, message_delta_json()),
        json_parse(event.data@) == Some(message_delta_json()),
{
    proof {
        keys_are_not_reserved();
    }
    let mut delta = new_fields();
    insert_field(&mut delta, "stop_reason".to_owned(), text_value("tool_use".to_owned()));
    insert_field(&mut delta, "stop_sequence".to_owned(), null_value());
    let mut usage = new_fields();
    insert_field(&mut usage, "output_tokens".to_owned(), unsigned_value(0));
    let mut fields = new_fields();
    insert_field(&mut fields, "type".to_owned(), text_value("message_delta".to_owned()));
    insert_field(&mut fields, "delta".to_owned(), object_value(delta));
    insert_field(&mut fields, "usage".to_owned(), object_value(usage));
    OutgoingEvent {
        event: "message_delta".to_owned(),
        id: None,
        data: print_json(&object_value(fields)),
        retry_ms: None,
    }
}

/// An event that ends the reply.
fn message_stop() -> (event: OutgoingEvent)
    ensures
        event@ == injected("message_stop"@, message_stop_json()),
        json_parse(event.data@) == Some(message_stop_json()),
{
    proof {
        keys_are_not_reserved();
    }
    let mut fields = new_fields();
    insert_field(&mut fields, "type".to_owned(), text_value("message_stop".to_owned()));
    OutgoingEvent {
        event: "message_stop".to_owned(),
        id: None,
        data: print_json(&object_value(fields)),
        retry_ms: None,
    }
}

/// The types of events and blocks that the relay tells apart are different
/// texts.
pub(crate) proof fn types_differ()
    ensures
        "tool_use"@ != "tool_result"@,
        "content_block_start"@ != "content_block_stop"@,
        "content_block_start"@ != "content_block_delta"@,
{
    reveal_strlit("tool_use");
    reveal_strlit("tool_result");
    reveal_strlit("content_block_start");
    reveal_strlit("content_block_stop");
    reveal_strlit("content_block_delta");
    assert("content_block_start"@[14] == 's');
    assert("content_block_delta"@[14] == 'd');
    assert("tool_use"@.len() == 8);
    assert("content_block_stop"@.len() == 18);
}

/// None of the keys that the relay writes is the one that JSON readers reserve.
proof fn keys_are_not_reserved()
    ensures
        "type"@ != reserved_key(),
        "delta"@ != reserved_key(),
        "usage"@ != reserved_key(),
        "stop_reason"@ != reserved_key(),
        "stop_sequence"@ != reserved_key(),
        "output_tokens"@ != reserved_key(),
{
    reserved_key_len();
    reveal_strlit("type");
    reveal_strlit("delta");
    reveal_strlit("usage");
    reveal_strlit("stop_reason");
    reveal_strlit("stop_sequence");
    reveal_strlit("output_tokens");
}

/// What the fields of an event ask of the relay.
enum Verdict {
    Hide,
    EndTool,
    Pass,
}

impl EventRelay {
    /// A relay at the start of a reply.
    pub fn new(has_tools: bool, input_tokens: u32) -> (relay: EventRelay)
        ensures
            relay@ == RelayView::fresh(has_tools, input_tokens),
    {
        EventRelay {
            has_tools,
            input_tokens,
            text: String::new(),
            tool_use_id: None,
            tool_use_index: None,
            suppressed_indices: HashSet::new(),
            tool_call_break: false,
        }
    }

    /// Takes note of the start of a content block.
    fn note_start(&mut self, fields: EventFields) -> (verdict: Verdict)
        requires
            fields@.event_type == "content_block_start"@,
        ensures
            final(self)@ == old(self)@.noted(fields@),
            verdict is Hide <==> old(self)@.hides(fields@),
            verdict !is EndTool,
            !old(self)@.ends_tool(fields@),
    {
        proof {
            types_differ();
        }
        match fields.block {
            Some(block) => {
                let is_tool_use = same_text(&block.block_type, "tool_use");
                if (is_tool_use && block.has_server_marks()) || same_text(
                    &block.block_type,
                    "tool_result",
                ) {
                    match fields.index {
                        Some(index) => {
                            self.suppressed_indices.insert(index);
                        },
                        None => {},
                    }
                    Verdict::Hide
                } else {
                    if is_tool_use && self.has_tools {
                        self.tool_use_id = Some(block.id);
                        self.tool_use_index = fields.index;
                    }
                    Verdict::Pass
                }
            },
            None => Verdict::Pass,
        }
    }

    /// Takes note of an event that belongs to a content block.
    fn note_tail(&mut self, fields: &EventFields) -> (verdict: Verdict)
        requires
            fields@.is_tail(),
        ensures
            *final(self) == *old(self),
            verdict is Hide <==> old(self)@.hides(fields@),
            verdict is EndTool <==> old(self)@.ends_tool(fields@),
    {
        proof {
            types_differ();
        }
        match fields.index {
            Some(index) => {
                if self.suppressed_indices.contains(&index) {
                    return Verdict::Hide;
                }
            },
            None => {},
        }
        if self.has_tools && same_text(&fields.event_type, "content_block_stop")
            && self.tool_use_id.is_some() && self.tool_use_index == fields.index {
            Verdict::EndTool
        } else {
            Verdict::Pass
        }
    }

    /// Takes note of the fields of an event.
    fn note(&mut self, fields: Option<EventFields>) -> (verdict: Verdict)
        ensures
            verdict is Hide <==> (fields_view(fields) matches Some(f)
                && old(self)@.hides(f)),
            verdict is EndTool <==> (fields_view(fields) matches Some(f)
                && old(self)@.ends_tool(f)),
            verdict is EndTool ==> *final(self) == *old(self),
            verdict !is EndTool ==> (match fields_view(fields) {
                Some(f) => final(self)@ == old(self)@.noted(f),
                None => final(self)@ == old(self)@,
            }),
    {
        proof {
            types_differ();
        }
        match fields {
            Some(f) => if same_text(&f.event_type, "content_block_start") {
                self.note_start(f)
            } else if same_text(&f.event_type, "content_block_delta") || same_text(
                &f.event_type,
                "content_block_stop",
            ) {
                self.note_tail(&f)
            } else {
                Verdict::Pass
            },
            None => Verdict::Pass,
        }
    }

    /// Takes an event whose data has been read: remembers what it says, and
    /// gives back what the client gets for it and the tool call to be
    /// registered. A relay that has ended the reply passes nothing on.
    pub fn advance(&mut self, event: StreamEvent, fields: Option<EventFields>) -> (relayed: Relayed)
        ensures
            final(self)@ == old(self)@.after(event@, fields_view(fields)),
            outgoing_view(relayed.events@) == old(self)@.relays(
                event@,
                fields_view(fields),
            ),
            text_view(relayed.register) == old(self)@.registers(fields_view(fields)),
            old(self)@.breaks_at(fields_view(fields)) ==> {
                &&& json_parse(relayed.events@[1].data@) == Some(message_delta_json())
                &&& json_parse(relayed.events@[2].data@) == Some(message_stop_json())
            },
    {
        let mut events: Vec<OutgoingEvent> = Vec::new();
        if self.tool_call_break {
            assert(outgoing_view(events@) =~= Seq::<OutgoingView>::empty());
            return Relayed { events, register: None };
        }
        match &event.completion {
            Some(completion) => {
                self.text.append(completion);
            },
            None => {
                assert(self.text@ + Seq::<char>::empty() =~= self.text@);
            },
        }
        proof {
            types_differ();
            assert(self@ =~= RelayView {
                text: old(self)@.text + completed(event@.completion),
                ..old(self)@
            });
        }
        match self.note(fields) {
            Verdict::Hide => Relayed { events, register: None },
            Verdict::EndTool => {
                events.push(event.forward());
                events.push(message_delta());
                events.push(message_stop());
                self.tool_call_break = true;
                Relayed { events, register: self.tool_use_id.take() }
            },
            Verdict::Pass => {
                if !same_text(&event.event, "message_limit") {
                    events.push(event.forward());
                }
                Relayed { events, register: None }
            },
        }
    }
}

} // verus!
