//! Requests and replies of the messages API.
use crate::json::{json_of, new_fields, object_value, JsonView};
use vstd::prelude::*;

verus! {

/// Who speaks in a message.
#[derive(Clone, Copy, Debug, PartialEq, Eq, Structural)]
pub enum Role {
    User,
    Assistant,
}

/// One block of a message. Blocks that the gateway does not look into are
/// carried as they came.
#[derive(Debug)]
pub enum ContentBlock {
    Text { text: String },
    ToolResult {
        tool_use_id: String,
        content: serde_json::Value,
        is_error: Option<bool>,
        rest: serde_json::Value,
    },
    Other { block: serde_json::Value },
}

/// What a `ContentBlock` holds.
pub enum BlockContents {
    Text(Seq<char>),
    ToolResult {
        tool_use_id: Seq<char>,
        content: JsonView,
        is_error: Option<bool>,
        rest: JsonView,
    },
    Other(JsonView),
}

impl View for ContentBlock {
    type V = BlockContents;

    open spec fn view(&self) -> BlockContents {
        match self {
            ContentBlock::Text { text } => BlockContents::Text(text@),
            ContentBlock::ToolResult { tool_use_id, content, is_error, rest } =>
                BlockContents::ToolResult {
                tool_use_id: tool_use_id@,
                content: json_of(*content),
                is_error: *is_error,
                rest: json_of(*rest),
            },
            ContentBlock::Other { block } => BlockContents::Other(json_of(*block)),
        }
    }
}

impl Clone for ContentBlock {
    fn clone(&self) -> (copy: Self)
        ensures
            copy@ == self@,
    {
        match self {
            ContentBlock::Text { text } => ContentBlock::Text { text: text.clone() },
            ContentBlock::ToolResult { tool_use_id, content, is_error, rest } =>
                ContentBlock::ToolResult {
                tool_use_id: tool_use_id.clone(),
                content: content.clone(),
                is_error: *is_error,
                rest: rest.clone(),
            },
            ContentBlock::Other { block } => ContentBlock::Other { block: block.clone() },
        }
    }
}

impl ContentBlock {
    /// A block of text.
    pub fn text(text: String) -> (block: ContentBlock)
        ensures
            block == (ContentBlock::Text { text }),
    {
        ContentBlock::Text { text }
    }
}

/// What a message holds: a plain text, or blocks.
#[derive(Debug)]
#[allow(inconsistent_fields)]
pub enum MessageContent {
    Text { content: String },
    Blocks { content: Vec<ContentBlock> },
}

/// What a `MessageContent` holds.
pub enum ContentView {
    Text(Seq<char>),
    Blocks(Seq<BlockContents>),
}

impl View for MessageContent {
    type V = ContentView;

    open spec fn view(&self) -> ContentView {
        match self {
            MessageContent::Text { content } => ContentView::Text(content@),
            MessageContent::Blocks { content } => ContentView::Blocks(
                content@.map_values(|block: ContentBlock| block@),
            ),
        }
    }
}

impl Clone for MessageContent {
    fn clone(&self) -> (copy: Self)
        ensures
            copy@ == self@,
    {
        match self {
            MessageContent::Text { content } => MessageContent::Text { content: content.clone() },
            MessageContent::Blocks { content } => {
                let mut blocks: Vec<ContentBlock> = Vec::new();
                for k in 0..content.len()
                    invariant
                        blocks@.len() == k,
                        forall|j: int| 0 <= j < k ==> (#[trigger] blocks@[j])@ == content@[j]@,
                {
                    blocks.push(content[k].clone());
                }
                assert(blocks@.map_values(|block: ContentBlock| block@) =~= content@.map_values(
                    |block: ContentBlock| block@,
                ));
                MessageContent::Blocks { content: blocks }
            },
        }
    }
}

/// One message of a conversation.
#[derive(Debug)]
pub struct Message {
    pub role: Role,
    pub content: MessageContent,
}

/// What a `Message` holds.
pub struct MessageView {
    pub role: Role,
    pub content: ContentView,
}

impl View for Message {
    type V = MessageView;

    open spec fn view(&self) -> MessageView {
        MessageView { role: self.role, content: self.content@ }
    }
}

impl Clone for Message {
    fn clone(&self) -> (copy: Self)
        ensures
            copy@ == self@,
    {
        Message { role: self.role, content: self.content.clone() }
    }
}

impl Message {
    /// A message made of blocks.
    pub fn new_blocks(role: Role, content: Vec<ContentBlock>) -> (message: Message)
        ensures
            message == (Message { role, content: MessageContent::Blocks { content } }),
    {
        Message { role, content: MessageContent::Blocks { content } }
    }

    /// A message that is a plain text.
    pub fn new_text(role: Role, content: String) -> (message: Message)
        ensures
            message == (Message { role, content: MessageContent::Text { content } }),
    {
        Message { role, content: MessageContent::Text { content } }
    }
}

/// The message of the assistant that says `text`, in a single block.
pub open spec fn said(text: Seq<char>) -> MessageView {
    MessageView {
        role: Role::Assistant,
        content: ContentView::Blocks(seq![BlockContents::Text(text)]),
    }
}

impl vstd::std_specs::convert::FromSpecImpl<String> for Message {
    open spec fn obeys_from_spec() -> bool {
        false
    }

    open spec fn from_spec(text: String) -> Message {
        arbitrary()
    }
}

impl From<String> for Message {
    /// A message of the assistant that holds the text.
    fn from(text: String) -> (message: Message)
        ensures
            message@ == said(text@),
    {
        let message = Message::new_blocks(Role::Assistant, vec![ContentBlock::text(text)]);
        assert(message.content@->Blocks_0 =~= seq![BlockContents::Text(text@)]);
        message
    }
}

impl<'a> vstd::std_specs::convert::FromSpecImpl<&'a str> for Message {
    open spec fn obeys_from_spec() -> bool {
        false
    }

    open spec fn from_spec(text: &'a str) -> Message {
        arbitrary()
    }
}

impl<'a> From<&'a str> for Message {
    /// A message of the assistant that holds the text.
    fn from(text: &'a str) -> (message: Message)
        ensures
            message@ == said(text@),
    {
        Message::from(text.to_owned())
    }
}

/// A request. The fields that the gateway reads stand by name; the others are
/// carried in `rest` as they came.
#[derive(Debug)]
pub struct CreateMessageParams {
    pub model: String,
    pub messages: Vec<Message>,
    pub stream: Option<bool>,
    pub tools: Option<Vec<serde_json::Value>>,
    pub thinking: Option<serde_json::Value>,
    pub rest: serde_json::Value,
}

/// What a `CreateMessageParams` holds.
#[verifier::ext_equal]
pub struct ParamsView {
    pub model: Seq<char>,
    pub messages: Seq<MessageView>,
    pub stream: Option<bool>,
    pub tools: Option<Seq<JsonView>>,
    pub thinking: Option<JsonView>,
    pub rest: JsonView,
}

impl View for CreateMessageParams {
    type V = ParamsView;

    open spec fn view(&self) -> ParamsView {
        ParamsView {
            model: self.model@,
            messages: self.messages@.map_values(|message: Message| message@),
            stream: self.stream,
            tools: match self.tools {
                Some(tools) => Some(tools@.map_values(|tool: serde_json::Value| json_of(tool))),
                None => None,
            },
            thinking: match self.thinking {
                Some(thinking) => Some(json_of(thinking)),
                None => None,
            },
            rest: json_of(self.rest),
        }
    }
}

impl ParamsView {
    /// The request names at least one tool.
    pub open spec fn offers_tools(self) -> bool {
        self.tools matches Some(tools) && tools.len() > 0
    }

    /// The request that says nothing.
    pub open spec fn blank() -> ParamsView {
        ParamsView {
            model: Seq::empty(),
            messages: Seq::empty(),
            stream: None,
            tools: None,
            thinking: None,
            rest: JsonView::Object(Map::empty()),
        }
    }
}

/// Copies a list of JSON values.
fn copy_values(values: &Vec<serde_json::Value>) -> (copy: Vec<serde_json::Value>)
    ensures
        copy@.map_values(|value: serde_json::Value| json_of(value)) == values@.map_values(
            |value: serde_json::Value| json_of(value),
        ),
{
    let mut copy: Vec<serde_json::Value> = Vec::new();
    for k in 0..values.len()
        invariant
            copy@.len() == k,
            forall|j: int| 0 <= j < k ==> json_of(#[trigger] copy@[j]) == json_of(values@[j]),
    {
        copy.push(values[k].clone());
    }
    assert(copy@.map_values(|value: serde_json::Value| json_of(value)) =~= values@.map_values(
        |value: serde_json::Value| json_of(value),
    ));
    copy
}

/// Copies a list of messages.
fn copy_messages(messages: &Vec<Message>) -> (copy: Vec<Message>)
    ensures
        copy@.map_values(|message: Message| message@) == messages@.map_values(
            |message: Message| message@,
        ),
{
    let mut copy: Vec<Message> = Vec::new();
    for k in 0..messages.len()
        invariant
            copy@.len() == k,
            forall|j: int| 0 <= j < k ==> (#[trigger] copy@[j])@ == messages@[j]@,
    {
        copy.push(messages[k].clone());
    }
    assert(copy@.map_values(|message: Message| message@) =~= messages@.map_values(
        |message: Message| message@,
    ));
    copy
}

impl Clone for CreateMessageParams {
    fn clone(&self) -> (copy: Self)
        ensures
            copy@ == self@,
    {
        CreateMessageParams {
            model: self.model.clone(),
            messages: copy_messages(&self.messages),
            stream: self.stream,
            tools: match &self.tools {
                Some(tools) => Some(copy_values(tools)),
                None => None,
            },
            thinking: match &self.thinking {
                Some(thinking) => Some(thinking.clone()),
                None => None,
            },
            rest: self.rest.clone(),
        }
    }
}

impl CreateMessageParams {
    /// Whether the request names at least one tool.
    pub fn has_tools(&self) -> (offered: bool)
        ensures
            offered == self@.offers_tools(),
    {
        match &self.tools {
            Some(tools) => tools.len() > 0,
            None => false,
        }
    }
}

impl Default for CreateMessageParams {
    fn default() -> (params: CreateMessageParams)
        ensures
            params@ == ParamsView::blank(),
    {
        CreateMessageParams {
            model: String::new(),
            messages: Vec::new(),
            stream: None,
            tools: None,
            thinking: None,
            rest: object_value(new_fields()),
        }
    }
}

/// Tokens read and written.
#[derive(Clone, Copy, Debug, PartialEq, Eq, Structural)]
pub struct Usage {
    pub input_tokens: u32,
    pub output_tokens: u32,
}

/// A reply.
#[derive(Clone, Debug)]
pub struct CreateMessageResponse {
    pub content: Vec<ContentBlock>,
    pub model: String,
    pub usage: Option<Usage>,
}

/// What a `CreateMessageResponse` holds.
#[verifier::ext_equal]
pub struct ResponseView {
    pub content: Seq<BlockContents>,
    pub model: Seq<char>,
    pub usage: Option<Usage>,
}

impl View for CreateMessageResponse {
    type V = ResponseView;

    open spec fn view(&self) -> ResponseView {
        ResponseView {
            content: self.content@.map_values(|block: ContentBlock| block@),
            model: self.model@,
            usage: self.usage,
        }
    }
}

impl ResponseView {
    /// The reply that is a single text.
    pub open spec fn of_text(text: Seq<char>, model: Seq<char>, usage: Usage) -> ResponseView {
        ResponseView { content: seq![BlockContents::Text(text)], model, usage: Some(usage) }
    }
}

impl CreateMessageResponse {
    /// A reply that is a single text.
    pub fn text(text: String, model: String, usage: Usage) -> (response: CreateMessageResponse)
        ensures
            response@ == ResponseView::of_text(text@, model@, usage),
    {
        let response = CreateMessageResponse {
            content: vec![ContentBlock::text(text)],
            model,
            usage: Some(usage),
        };
        assert(response@.content =~= seq![BlockContents::Text(text@)]);
        response
    }
}

} // verus!
