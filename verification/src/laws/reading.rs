//! What is read in texts and in the JSON data of events.
use crate::event::{block_of, event_fields, fields_in};
use crate::family::{family_of, family_of_any, ModelFamily};
use crate::json::{json_parse, reserved_key, JsonView};
use crate::text::{ascii_lower, begins_with, has_part, stands_at};
use vstd::prelude::*;

verus! {

/// The fields of a JSON object.
pub type Fields = Map<Seq<char>, JsonView>;

/// The object has `value` under `key`.
pub open spec fn holds(fields: Fields, key: Seq<char>, value: JsonView) -> bool {
    fields.contains_key(key) && fields[key] == value
}

/// The object has some text under `key`.
pub open spec fn holds_text(fields: Fields, key: Seq<char>) -> bool {
    fields.contains_key(key) && fields[key] is Text
}

/// The object has some non-negative integer under `key`.
pub open spec fn holds_unsigned(fields: Fields, key: Seq<char>) -> bool {
    fields.contains_key(key) && fields[key] is Unsigned
}

/// A text begins with a prefix exactly if something put behind the prefix makes
/// the text.
pub proof fn a_prefix_can_be_completed(text: Seq<char>, prefix: Seq<char>)
    ensures
        begins_with(text, prefix) <==> exists|rest: Seq<char>| text == #[trigger] (prefix + rest),
{
    if begins_with(text, prefix) {
        let rest = text.skip(prefix.len() as int);
        assert(text =~= prefix + rest);
    }
    if exists|rest: Seq<char>| text == #[trigger] (prefix + rest) {
        let rest = choose|rest: Seq<char>| text == #[trigger] (prefix + rest);
        assert((prefix + rest).take(prefix.len() as int) =~= prefix);
    }
}

/// A text has a part exactly if something put before and behind the part makes
/// the text.
pub proof fn a_part_can_be_completed(text: Seq<char>, part: Seq<char>)
    ensures
        has_part(text, part) <==> exists|before: Seq<char>, after: Seq<char>|
            text == #[trigger] (before + part + after),
{
    if has_part(text, part) {
        let at = choose|at: int| stands_at(text, part, at);
        let before = text.take(at);
        let after = text.skip(at + part.len());
        assert(text =~= before + part + after);
    }
    if exists|before: Seq<char>, after: Seq<char>| text == #[trigger] (before + part + after) {
        let (before, after) = choose|before: Seq<char>, after: Seq<char>|
            text == #[trigger] (before + part + after);
        assert(text.subrange(before.len() as int, (before.len() + part.len()) as int) =~= part);
        assert(stands_at(text, part, before.len() as int));
    }
}

/// Lowering a text moves the capitals of the ASCII alphabet by 32, and nothing
/// else, character by character.
pub proof fn lowering_moves_capitals_only(text: Seq<char>, at: int)
    requires
        0 <= at < text.len(),
    ensures
        ascii_lower(text).len() == text.len(),
        65 <= text[at] as int <= 90 ==> ascii_lower(text)[at] as int == text[at] as int + 32,
        !(65 <= text[at] as int <= 90) ==> ascii_lower(text)[at] == text[at],
{
}

/// The family of a model: the first named part that stands in its lowered name.
/// A name with both parts is of the first family.
pub proof fn families_go_by_parts(model: Seq<char>)
    ensures
        (exists|before: Seq<char>, after: Seq<char>|
            ascii_lower(model) == #[trigger] (before + "opus"@ + after)) <==> family_of(model)
            == ModelFamily::Opus,
        (exists|before: Seq<char>, after: Seq<char>|
            ascii_lower(model) == #[trigger] (before + "sonnet"@ + after)) && family_of(model)
            != ModelFamily::Opus <==> family_of(model) == ModelFamily::Sonnet,
        family_of_any(Some(model)) == family_of(model),
        family_of_any(None) == ModelFamily::Other,
{
    a_part_can_be_completed(ascii_lower(model), "opus"@);
    a_part_can_be_completed(ascii_lower(model), "sonnet"@);
}

/// What a JSON value holds under a key is what an object has there. A value of
/// another kind holds nothing, and is neither a text nor a number.
pub proof fn json_is_read_by_key(fields: Fields, key: Seq<char>, value: JsonView)
    ensures
        holds(fields, key, value) ==> JsonView::Object(fields).get(key) == Some(value),
        !fields.contains_key(key) ==> JsonView::Object(fields).get(key) is None,
        value !is Object ==> value.get(key) is None,
        holds(fields, key, value) ==> JsonView::Object(fields).text_at(key) == value.text(),
        !fields.contains_key(key) ==> JsonView::Object(fields).text_at(key) is None,
        value !is Object ==> value.text_at(key) is None,
        forall|text: Seq<char>| #[trigger]
            JsonView::Text(text).text() == Some(text) && JsonView::Text(text).unsigned() is None,
        forall|number: u64| #[trigger]
            JsonView::Unsigned(number).unsigned() == Some(number) && JsonView::Unsigned(
                number,
            ).text() is None,
        value !is Text ==> value.text() is None,
        value !is Unsigned ==> value.unsigned() is None,
{
}

/// What an event says: its type is the text under `type`, its index the
/// non-negative integer under `index`, its block what is under `content_block`,
/// and nothing where there is no such text, integer or value.
pub proof fn events_are_read_by_key(fields: Fields)
    ensures
        ({
            let read = event_fields(JsonView::Object(fields));
            &&& forall|text: Seq<char>|
                #[trigger] holds(fields, "type"@, JsonView::Text(text)) ==> read.event_type == text
            &&& !holds_text(fields, "type"@) ==> read.event_type.len() == 0
            &&& forall|number: u64|
                #[trigger] holds(fields, "index"@, JsonView::Unsigned(number)) ==> read.index
                    == Some(number as usize)
            &&& !holds_unsigned(fields, "index"@) ==> read.index is None
            &&& fields.contains_key("content_block"@) ==> read.block == Some(
                block_of(fields["content_block"@]),
            )
            &&& !fields.contains_key("content_block"@) ==> read.block is None
        }),
{
}

/// What a block says: its type, name and identifier are the texts under those
/// keys, or none at all; whether it carries a message or an integration name is
/// whether it has a text there.
pub proof fn blocks_are_read_by_key(fields: Fields)
    ensures
        ({
            let read = block_of(JsonView::Object(fields));
            &&& forall|text: Seq<char>|
                #[trigger] holds(fields, "type"@, JsonView::Text(text)) ==> read.block_type == text
            &&& !holds_text(fields, "type"@) ==> read.block_type.len() == 0
            &&& forall|text: Seq<char>|
                #[trigger] holds(fields, "name"@, JsonView::Text(text)) ==> read.name == text
            &&& !holds_text(fields, "name"@) ==> read.name.len() == 0
            &&& forall|text: Seq<char>|
                #[trigger] holds(fields, "id"@, JsonView::Text(text)) ==> read.id == text
            &&& !holds_text(fields, "id"@) ==> read.id.len() == 0
            &&& read.has_message <==> holds_text(fields, "message"@)
            &&& read.has_integration_name <==> holds_text(fields, "integration_name"@)
        }),
{
}

/// JSON that is no object says nothing of an event or of a block; data that is no
/// JSON says nothing at all, and other data says what its JSON says.
pub proof fn what_is_no_object_says_nothing(json: JsonView, data: Seq<char>)
    ensures
        json !is Object ==> ({
            let event = event_fields(json);
            let block = block_of(json);
            &&& event.event_type.len() == 0
            &&& event.index is None
            &&& event.block is None
            &&& block.block_type.len() == 0
            &&& block.name.len() == 0
            &&& block.id.len() == 0
            &&& !block.has_message
            &&& !block.has_integration_name
        }),
        json_parse(data) is None ==> fields_in(data) is None,
        json_parse(data) == Some(json) ==> fields_in(data) == Some(event_fields(json)),
{
}

/// What may be printed: no fraction and no list anywhere, nothing under the key
/// that readers of JSON keep for themselves, and objects no deeper than two.
pub proof fn what_is_printed_is_shallow(
    fields: Fields,
    key: Seq<char>,
    inner: Fields,
    deep: Seq<char>,
)
    ensures
        reserved_key() == "$serde_json::private::RawValue"@,
        forall|bits: u64| !(#[trigger] JsonView::Fraction(bits).is_shallow()),
        forall|items: Seq<JsonView>| !(#[trigger] JsonView::List(items).is_shallow()),
        fields.contains_key(reserved_key()) ==> !JsonView::Object(fields).is_shallow(),
        holds(fields, key, JsonView::Object(inner)) && inner.contains_key(reserved_key())
            ==> !JsonView::Object(fields).is_shallow(),
        fields.contains_key(key) && (fields[key] is Fraction || fields[key] is List)
            ==> !JsonView::Object(fields).is_shallow(),
        holds(fields, key, JsonView::Object(inner)) && inner.contains_key(deep) && (
        inner[deep] is Fraction || inner[deep] is List || inner[deep] is Object)
            ==> !JsonView::Object(fields).is_shallow(),
{
    let value = JsonView::Object(fields);
    if value.is_shallow() {
        assert(fields.contains_key(reserved_key()) ==> value->Object_0.contains_key(
            reserved_key(),
        ));
        assert(fields.contains_key(key) ==> value->Object_0.contains_key(key));
        if holds(fields, key, JsonView::Object(inner)) {
            let part = JsonView::Object(inner);
            assert(part.is_flat());
            assert(inner.contains_key(reserved_key()) ==> part->Object_0.contains_key(
                reserved_key(),
            ));
            assert(inner.contains_key(deep) ==> part->Object_0.contains_key(deep));
        }
    }
}

} // verus!
