//! The result of a tool in a request: where it is found, and what is sent to
//! the web service for it.
use crate::json::{bool_value, insert_field, json_of, new_fields, object_value, text_value, JsonView};
use crate::message::{
    BlockContents, ContentBlock, ContentView, CreateMessageParams, Message, MessageContent,
    ParamsView, Role,
};
use vstd::prelude::*;

verus! {

/// The last of `blocks` that is the result of a tool.
pub open spec fn last_result(blocks: Seq<BlockContents>) -> Option<BlockContents>
    decreases blocks.len(),
{
    if blocks.len() == 0 {
        None
    } else if blocks.last() is ToolResult {
        Some(blocks.last())
    } else {
        last_result(blocks.drop_last())
    }
}

impl ParamsView {
    /// The last tool result of the last message.
    pub open spec fn tool_result(self) -> Option<BlockContents> {
        if self.messages.len() == 0 {
            None
        } else {
            match self.messages.last().content {
                ContentView::Blocks(blocks) => last_result(blocks),
                ContentView::Text(_) => None,
            }
        }
    }

    /// The tool use that the request answers: the one of its last tool result,
    /// if the last message is the user's.
    pub open spec fn answered_tool(self) -> Option<Seq<char>> {
        match self.tool_result() {
            Some(BlockContents::ToolResult { tool_use_id, .. }) => if self.messages.last().role
                == Role::User {
                Some(tool_use_id)
            } else {
                None
            },
            _ => None,
        }
    }
}

/// What is sent for a tool result: an object without fields where there is
/// none. A result that does not say whether it is an error is none.
pub open spec fn result_payload(result: Option<BlockContents>) -> JsonView {
    match result {
        Some(BlockContents::ToolResult { tool_use_id, content, is_error, .. }) => JsonView::Object(
            Map::empty().insert("type"@, JsonView::Text("tool_result"@)).insert(
                "tool_use_id"@,
                JsonView::Text(tool_use_id),
            ).insert("content"@, content).insert(
                "is_error"@,
                JsonView::Bool(is_error == Some(true)),
            ),
        ),
        _ => JsonView::Object(Map::empty()),
    }
}

/// The last of `blocks` that is the result of a tool.
fn find_last_result(blocks: &Vec<ContentBlock>) -> (found: Option<usize>)
    ensures
        ({
            let views = blocks@.map_values(|block: ContentBlock| block@);
            match found {
                Some(k) => k < blocks@.len() && blocks@[k as int] is ToolResult && last_result(
                    views,
                ) == Some(blocks@[k as int]@),
                None => last_result(views) is None,
            }
        }),
{
    let ghost views = blocks@.map_values(|block: ContentBlock| block@);
    let mut k: usize = blocks.len();
    assert(views.take(k as int) =~= views);
    while k > 0
        invariant
            k <= blocks@.len(),
            views == blocks@.map_values(|block: ContentBlock| block@),
            last_result(views) == last_result(views.take(k as int)),
        decreases k,
    {
        assert(views.take(k as int).drop_last() =~= views.take(k - 1));
        match &blocks[k - 1] {
            ContentBlock::ToolResult { .. } => {
                return Some(k - 1);
            },
            _ => {},
        }
        k = k - 1;
    }
    None
}

/// The last message of a request.
fn last_message(params: &CreateMessageParams) -> (message: Option<&Message>)
    ensures
        match message {
            Some(m) => params@.messages.len() > 0 && m@ == params@.messages.last(),
            None => params@.messages.len() == 0,
        },
{
    if params.messages.len() == 0 {
        None
    } else {
        Some(&params.messages[params.messages.len() - 1])
    }
}

/// The tool use that a request answers: the one of the last tool result in its
/// last message, if that is the user's.
pub fn extract_tool_result_id(params: &CreateMessageParams) -> (id: Option<String>)
    ensures
        crate::text::text_view(id) == params@.answered_tool(),
{
    match last_message(params) {
        Some(message) => {
            if message.role != Role::User {
                return None;
            }
            match &message.content {
                MessageContent::Blocks { content } => match find_last_result(content) {
                    Some(k) => match &content[k] {
                        ContentBlock::ToolResult { tool_use_id, .. } => Some(tool_use_id.clone()),
                        _ => None,
                    },
                    None => None,
                },
                MessageContent::Text { .. } => None,
            }
        },
        None => None,
    }
}

/// What is sent to the web service for the last tool result in the last
/// message of a request.
pub fn build_tool_result_payload(params: &CreateMessageParams) -> (payload: serde_json::Value)
    requires
        params@.messages.len() > 0,
    ensures
        json_of(payload) == result_payload(params@.tool_result()),
{
    let mut fields = new_fields();
    match &params.messages[params.messages.len() - 1].content {
        MessageContent::Blocks { content } => match find_last_result(content) {
            Some(k) => match &content[k] {
                ContentBlock::ToolResult { tool_use_id, content, is_error, .. } => {
                    insert_field(
                        &mut fields,
                        "type".to_owned(),
                        text_value("tool_result".to_owned()),
                    );
                    insert_field(
                        &mut fields,
                        "tool_use_id".to_owned(),
                        text_value(tool_use_id.clone()),
                    );
                    insert_field(&mut fields, "content".to_owned(), content.clone());
                    insert_field(
                        &mut fields,
                        "is_error".to_owned(),
                        bool_value(
                            match is_error {
                                Some(flag) => *flag,
                                None => false,
                            },
                        ),
                    );
                },
                _ => {},
            },
            None => {},
        },
        MessageContent::Text { .. } => {},
    }
    object_value(fields)
}

} // verus!
