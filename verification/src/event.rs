//! Server-sent events as they come from the web service and go to the client,
//! and what the relay reads in the JSON data of one.
use crate::json::{json_field, json_of, json_parse, json_text, json_unsigned, parse_json, JsonView};
use crate::text::{begins_with, text_begins_with, text_view};
use vstd::prelude::*;

verus! {

/// An event as it comes from the web service. `completion` is the completion
/// text that its data carries, where it carries one.
#[derive(Clone, Debug)]
pub struct StreamEvent {
    pub event: String,
    pub id: String,
    pub data: String,
    pub retry_ms: Option<u64>,
    pub completion: Option<String>,
}

/// What a `StreamEvent` holds.
#[verifier::ext_equal]
pub struct EventView {
    pub event: Seq<char>,
    pub id: Seq<char>,
    pub data: Seq<char>,
    pub retry_ms: Option<u64>,
    pub completion: Option<Seq<char>>,
}

impl View for StreamEvent {
    type V = EventView;

    open spec fn view(&self) -> EventView {
        EventView {
            event: self.event@,
            id: self.id@,
            data: self.data@,
            retry_ms: self.retry_ms,
            completion: text_view(self.completion),
        }
    }
}

/// An event as it goes to the client.
#[derive(Clone, Debug)]
pub struct OutgoingEvent {
    pub event: String,
    pub id: Option<String>,
    pub data: String,
    pub retry_ms: Option<u64>,
}

/// What an `OutgoingEvent` holds.
#[verifier::ext_equal]
pub struct OutgoingView {
    pub event: Seq<char>,
    pub id: Option<Seq<char>>,
    pub data: Seq<char>,
    pub retry_ms: Option<u64>,
}

impl View for OutgoingEvent {
    type V = OutgoingView;

    open spec fn view(&self) -> OutgoingView {
        OutgoingView {
            event: self.event@,
            id: text_view(self.id),
            data: self.data@,
            retry_ms: self.retry_ms,
        }
    }
}

impl EventView {
    /// The event as it goes on to the client, unchanged.
    pub open spec fn forwarded(self) -> OutgoingView {
        OutgoingView {
            event: self.event,
            id: Some(self.id),
            data: self.data,
            retry_ms: self.retry_ms,
        }
    }
}

impl StreamEvent {
    /// The event as it goes on to the client, unchanged.
    pub fn forward(self) -> (outgoing: OutgoingEvent)
        ensures
            outgoing@ == self@.forwarded(),
    {
        OutgoingEvent {
            event: self.event,
            id: Some(self.id),
            data: self.data,
            retry_ms: self.retry_ms,
        }
    }
}

/// What a content block says of itself where it starts.
#[derive(Clone, Debug)]
pub struct BlockFields {
    pub block_type: String,
    pub name: String,
    pub id: String,
    pub has_message: bool,
    pub has_integration_name: bool,
}

/// What a `BlockFields` holds.
#[verifier::ext_equal]
pub struct BlockView {
    pub block_type: Seq<char>,
    pub name: Seq<char>,
    pub id: Seq<char>,
    pub has_message: bool,
    pub has_integration_name: bool,
}

impl View for BlockFields {
    type V = BlockView;

    open spec fn view(&self) -> BlockView {
        BlockView {
            block_type: self.block_type@,
            name: self.name@,
            id: self.id@,
            has_message: self.has_message,
            has_integration_name: self.has_integration_name,
        }
    }
}

impl BlockView {
    /// The use of a tool.
    pub open spec fn is_tool_use(self) -> bool {
        self.block_type == "tool_use"@
    }

    /// The block has the marks of a tool that the service runs itself: its name
    /// has the prefix of the built-in ones, or it carries a message or an
    /// integration name.
    pub open spec fn has_server_marks(self) -> bool {
        begins_with(self.name, "builtin_"@) || self.has_message || self.has_integration_name
    }

    /// The use of a tool that the service runs itself.
    pub open spec fn is_server_tool(self) -> bool {
        self.is_tool_use() && self.has_server_marks()
    }

    /// The use of a tool that the client runs.
    pub open spec fn is_client_tool(self) -> bool {
        self.is_tool_use() && !self.is_server_tool()
    }

    /// A block that concerns the service alone: a tool that it runs, or the
    /// result of one.
    pub open spec fn is_internal(self) -> bool {
        self.is_server_tool() || self.block_type == "tool_result"@
    }
}

/// What the relay reads in the data of an event.
#[derive(Clone, Debug)]
pub struct EventFields {
    pub event_type: String,
    pub index: Option<usize>,
    pub block: Option<BlockFields>,
}

/// What an `EventFields` holds.
#[verifier::ext_equal]
pub struct FieldsView {
    pub event_type: Seq<char>,
    pub index: Option<usize>,
    pub block: Option<BlockView>,
}

impl View for EventFields {
    type V = FieldsView;

    open spec fn view(&self) -> FieldsView {
        FieldsView {
            event_type: self.event_type@,
            index: self.index,
            block: match self.block {
                Some(block) => Some(block@),
                None => None,
            },
        }
    }
}

impl FieldsView {
    /// The content block that starts here.
    pub open spec fn started(self) -> Option<BlockView> {
        if self.event_type == "content_block_start"@ {
            self.block
        } else {
            None
        }
    }

    /// The event ends a content block.
    pub open spec fn is_stop(self) -> bool {
        self.event_type == "content_block_stop"@
    }

    /// The event belongs to a content block that started earlier.
    pub open spec fn is_tail(self) -> bool {
        self.event_type == "content_block_delta"@ || self.is_stop()
    }
}

/// What optional fields hold.
pub open spec fn fields_view(fields: Option<EventFields>) -> Option<FieldsView> {
    match fields {
        Some(f) => Some(f@),
        None => None,
    }
}

/// The text under `key`, or none at all.
pub open spec fn text_or_empty(json: JsonView, key: Seq<char>) -> Seq<char> {
    match json.text_at(key) {
        Some(text) => text,
        None => Seq::empty(),
    }
}

/// What a JSON value says of a content block.
pub open spec fn block_of(json: JsonView) -> BlockView {
    BlockView {
        block_type: text_or_empty(json, "type"@),
        name: text_or_empty(json, "name"@),
        id: text_or_empty(json, "id"@),
        has_message: json.text_at("message"@) is Some,
        has_integration_name: json.text_at("integration_name"@) is Some,
    }
}

/// What a JSON value says of an event.
pub open spec fn event_fields(json: JsonView) -> FieldsView {
    FieldsView {
        event_type: text_or_empty(json, "type"@),
        index: match json.get("index"@) {
            Some(value) => match value.unsigned() {
                Some(number) => Some(number as usize),
                None => None,
            },
            None => None,
        },
        block: match json.get("content_block"@) {
            Some(block) => Some(block_of(block)),
            None => None,
        },
    }
}

/// What the data of an event says; nothing where it is no JSON.
pub open spec fn fields_in(data: Seq<char>) -> Option<FieldsView> {
    match json_parse(data) {
        Some(json) => Some(event_fields(json)),
        None => None,
    }
}

/// The text under `key`.
fn read_text(value: &serde_json::Value, key: &str) -> (text: Option<String>)
    ensures
        text_view(text) == json_of(*value).text_at(key@),
{
    match json_field(value, key) {
        Some(field) => match json_text(field) {
            Some(text) => Some(text.to_owned()),
            None => None,
        },
        None => None,
    }
}

/// The text under `key`, or none at all.
fn read_text_or_empty(value: &serde_json::Value, key: &str) -> (text: String)
    ensures
        text@ == text_or_empty(json_of(*value), key@),
{
    match read_text(value, key) {
        Some(text) => text,
        None => String::new(),
    }
}

/// What a JSON value says of a content block.
fn read_block(value: &serde_json::Value) -> (block: BlockFields)
    ensures
        block@ == block_of(json_of(*value)),
{
    BlockFields {
        block_type: read_text_or_empty(value, "type"),
        name: read_text_or_empty(value, "name"),
        id: read_text_or_empty(value, "id"),
        has_message: read_text(value, "message").is_some(),
        has_integration_name: read_text(value, "integration_name").is_some(),
    }
}

/// Reads what a JSON value says of an event.
pub fn read_value(value: &serde_json::Value) -> (fields: EventFields)
    ensures
        fields@ == event_fields(json_of(*value)),
{
    let index: Option<usize> = match json_field(value, "index") {
        Some(field) => match json_unsigned(field) {
            Some(number) => Some(number as usize),
            None => None,
        },
        None => None,
    };
    let block = match json_field(value, "content_block") {
        Some(block) => Some(read_block(block)),
        None => None,
    };
    EventFields { event_type: read_text_or_empty(value, "type"), index, block }
}

/// Reads what the data of an event says; nothing where it is no JSON.
pub fn read_fields(data: &str) -> (fields: Option<EventFields>)
    ensures
        fields_view(fields) == fields_in(data@),
{
    match parse_json(data) {
        Some(value) => Some(read_value(&value)),
        None => None,
    }
}

impl BlockFields {
    /// Whether the block has the marks of a tool that the service runs itself.
    pub(crate) fn has_server_marks(&self) -> (marked: bool)
        ensures
            marked == self@.has_server_marks(),
    {
        text_begins_with(&self.name, "builtin_") || self.has_message || self.has_integration_name
    }
}

} // verus!
