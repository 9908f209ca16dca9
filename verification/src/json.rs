//! JSON values as `serde_json` holds them, and what the calls into that crate
//! do, over a mathematical model of a JSON value.
use vstd::prelude::*;

verus! {

/// What a JSON value is. A number is kept as the form in which it is stored;
/// a number that is no integer stands by its bit pattern.
pub enum JsonView {
    Null,
    Bool(bool),
    Unsigned(u64),
    Negative(i64),
    Fraction(u64),
    Text(Seq<char>),
    List(Seq<JsonView>),
    Object(Map<Seq<char>, JsonView>),
}

/// The key that `serde_json` keeps for itself: its reader takes an object that
/// begins with it for the JSON text that stands under it.
pub open spec fn reserved_key() -> Seq<char> {
    "$serde_json::private::RawValue"@
}

/// The reserved key differs from every text of another length.
pub(crate) proof fn reserved_key_len()
    ensures
        reserved_key().len() == 30,
{
    reveal_strlit("$serde_json::private::RawValue");
}

impl JsonView {
    /// The value that an object holds under `key`.
    pub open spec fn get(self, key: Seq<char>) -> Option<JsonView> {
        match self {
            JsonView::Object(fields) => if fields.contains_key(key) {
                Some(fields[key])
            } else {
                None
            },
            _ => None,
        }
    }

    /// The characters of a text value.
    pub open spec fn text(self) -> Option<Seq<char>> {
        match self {
            JsonView::Text(chars) => Some(chars),
            _ => None,
        }
    }

    /// The number that a non-negative integer value holds.
    pub open spec fn unsigned(self) -> Option<u64> {
        match self {
            JsonView::Unsigned(number) => Some(number),
            _ => None,
        }
    }

    /// The text that an object holds under `key`.
    pub open spec fn text_at(self, key: Seq<char>) -> Option<Seq<char>> {
        match self.get(key) {
            Some(value) => value.text(),
            None => None,
        }
    }

    /// A value without parts that is no fraction.
    pub open spec fn is_leaf(self) -> bool {
        match self {
            JsonView::Fraction(_) | JsonView::List(_) | JsonView::Object(_) => false,
            _ => true,
        }
    }

    /// A leaf, or an object whose values are leaves and none of whose keys is
    /// the reserved one.
    pub open spec fn is_flat(self) -> bool {
        match self {
            JsonView::Object(fields) => forall|key: Seq<char>| #[trigger]
                fields.contains_key(key) ==> key != reserved_key() && fields[key].is_leaf(),
            _ => self.is_leaf(),
        }
    }

    /// A leaf, or an object whose values are flat and none of whose keys is the
    /// reserved one.
    pub open spec fn is_shallow(self) -> bool {
        match self {
            JsonView::Object(fields) => forall|key: Seq<char>| #[trigger]
                fields.contains_key(key) ==> key != reserved_key() && fields[key].is_flat(),
            _ => self.is_leaf(),
        }
    }
}

/// `serde_json::Value`, of which `json_of` says what it holds.
#[verifier::external_type_specification]
#[verifier::external_body]
pub struct ExValue(serde_json::Value);

/// `serde_json::Map`, of which `fields_of` says what it holds.
#[verifier::external_type_specification]
#[verifier::external_body]
#[verifier::reject_recursive_types(K)]
#[verifier::reject_recursive_types(V)]
pub struct ExMap<K, V>(serde_json::Map<K, V>);

/// The JSON value that a `serde_json::Value` holds.
pub uninterp spec fn json_of(value: serde_json::Value) -> JsonView;

/// The fields that a `serde_json::Map` holds.
pub uninterp spec fn fields_of(fields: serde_json::Map<String, serde_json::Value>) -> Map<
    Seq<char>,
    JsonView,
>;

/// What `serde_json::from_str` reads a text as; `None` where the text is
/// refused.
pub uninterp spec fn json_parse(text: Seq<char>) -> Option<JsonView>;

/// What `serde_json` prints a value as, on one line.
pub uninterp spec fn json_print(value: JsonView) -> Seq<char>;

/// Reads a text with `serde_json::from_str::<Value>`. The result is the one
/// that `json_parse` names.
#[verifier::external_body]
pub(crate) fn parse_json(text: &str) -> (value: Option<serde_json::Value>)
    ensures
        value is Some <==> json_parse(text@) is Some,
        value matches Some(v) ==> json_parse(text@) == Some(json_of(v)),
{
    serde_json::from_str::<serde_json::Value>(text).ok()
}

/// Prints a shallow value with `Value::to_string`, its `Display`. The text is
/// the one that `json_print` names: an object's fields come in the order of
/// their keys, so it depends on the value alone. It is read back as the value.
/// Deeper values, fractions and the reserved key are left out: the reader may
/// refuse the first, round the second, and takes an object with the third for
/// something else.
#[verifier::external_body]
pub(crate) fn print_json(value: &serde_json::Value) -> (text: String)
    requires
        json_of(*value).is_shallow(),
    ensures
        text@ == json_print(json_of(*value)),
        json_parse(text@) == Some(json_of(*value)),
{
    value.to_string()
}

/// `Value::clone`: the copy holds the same JSON value.
pub assume_specification[ <serde_json::Value as Clone>::clone ](
    value: &serde_json::Value,
) -> (copy: serde_json::Value)
    ensures
        json_of(copy) == json_of(*value),
;

/// Looks a field up with `Value::get`: `None` where the value is no object, or
/// has no such field.
#[verifier::external_body]
pub(crate) fn json_field<'a>(value: &'a serde_json::Value, key: &str) -> (field: Option<
    &'a serde_json::Value,
>)
    ensures
        field is Some <==> json_of(*value).get(key@) is Some,
        field matches Some(f) ==> json_of(*value).get(key@) == Some(json_of(*f)),
{
    value.get(key)
}

/// Reads a text value with `Value::as_str`.
#[verifier::external_body]
pub(crate) fn json_text(value: &serde_json::Value) -> (text: Option<&str>)
    ensures
        text is Some <==> json_of(*value).text() is Some,
        text matches Some(t) ==> json_of(*value).text() == Some(t@),
{
    value.as_str()
}

/// Reads a non-negative integer with `Value::as_u64`.
#[verifier::external_body]
pub(crate) fn json_unsigned(value: &serde_json::Value) -> (number: Option<u64>)
    ensures
        number == json_of(*value).unsigned(),
{
    value.as_u64()
}

/// `serde_json::Map::new`: no fields.
#[verifier::external_body]
pub(crate) fn new_fields() -> (fields: serde_json::Map<String, serde_json::Value>)
    ensures
        fields_of(fields) == (Map::<Seq<char>, JsonView>::empty()),
{
    serde_json::Map::new()
}

/// `serde_json::Map::insert`: the value is put under the key, in place of one
/// that stood there.
#[verifier::external_body]
pub(crate) fn insert_field(
    fields: &mut serde_json::Map<String, serde_json::Value>,
    key: String,
    value: serde_json::Value,
)
    ensures
        fields_of(*final(fields)) == fields_of(*old(fields)).insert(key@, json_of(value)),
{
    fields.insert(key, value);
}

/// `Value::from` on a map: the object with those fields.
#[verifier::external_body]
pub(crate) fn object_value(fields: serde_json::Map<String, serde_json::Value>) -> (value:
    serde_json::Value)
    ensures
        json_of(value) == JsonView::Object(fields_of(fields)),
{
    serde_json::Value::from(fields)
}

/// `Value::from` on a `String`.
#[verifier::external_body]
pub(crate) fn text_value(text: String) -> (value: serde_json::Value)
    ensures
        json_of(value) == JsonView::Text(text@),
{
    serde_json::Value::from(text)
}

/// `Value::from` on a `bool`.
#[verifier::external_body]
pub(crate) fn bool_value(flag: bool) -> (value: serde_json::Value)
    ensures
        json_of(value) == JsonView::Bool(flag),
{
    serde_json::Value::from(flag)
}

/// `Value::from` on a `u64`.
#[verifier::external_body]
pub(crate) fn unsigned_value(number: u64) -> (value: serde_json::Value)
    ensures
        json_of(value) == JsonView::Unsigned(number),
{
    serde_json::Value::from(number)
}

/// `Value::from` on `()`: the null value.
#[verifier::external_body]
pub(crate) fn null_value() -> (value: serde_json::Value)
    ensures
        json_of(value) == JsonView::Null,
{
    serde_json::Value::from(())
}

} // verus!
