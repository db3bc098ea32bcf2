//! JSON values, as the tree that each of them holds.

use serde_json::Value;
use vstd::prelude::*;

verus! {

/// A JSON value of `serde_json`.
#[verifier::external_type_specification]
#[verifier::external_body]
pub struct ExValue(serde_json::Value);

/// Why `serde_json` rejected a text.
#[verifier::external_type_specification]
#[verifier::external_body]
pub struct ExError(serde_json::Error);

/// The fields of a JSON object of `serde_json`, by name.
#[verifier::external_type_specification]
#[verifier::external_body]
#[verifier::reject_recursive_types(K)]
#[verifier::reject_recursive_types(V)]
pub struct ExFields<K, V>(serde_json::Map<K, V>);

/// The tree that a JSON value holds. An object has no order among its fields.
pub enum JsonView {
    Null,
    Boolean(bool),
    Integer(int),
    /// A floating-point number, by the text that it is displayed as.
    Fraction(Seq<char>),
    Text(Seq<char>),
    Array(Seq<JsonView>),
    Object(Map<Seq<char>, JsonView>),
}

/// The contents of a JSON value.
pub uninterp spec fn json_view(value: serde_json::Value) -> JsonView;

/// The contents of the fields of a JSON object.
pub uninterp spec fn fields_view(fields: serde_json::Map<String, Value>) -> Map<
    Seq<char>,
    JsonView,
>;

/// What `serde_json::from_slice::<Value>` makes of a text: nothing where the
/// text is rejected.
pub uninterp spec fn json_parsed(text: Seq<u8>) -> Option<JsonView>;

/// The compact text that `serde_json::to_vec` writes for a value.
pub uninterp spec fn json_encoded(value: JsonView) -> Seq<u8>;

/// The compact text that `Value` displays as.
pub uninterp spec fn json_text(value: JsonView) -> Seq<char>;

/// The contents of a list of JSON values.
pub open spec fn json_views(values: Seq<Value>) -> Seq<JsonView> {
    Seq::new(values.len(), |i: int| json_view(values[i]))
}

/// A byte string as JSON: an array of its bytes.
pub open spec fn bytes_json(bytes: Seq<u8>) -> JsonView {
    JsonView::Array(Seq::new(bytes.len(), |i: int| JsonView::Integer(bytes[i] as int)))
}

/// The named field of a value, null where it has none.
pub open spec fn json_member(value: JsonView, name: Seq<char>) -> JsonView {
    match value {
        JsonView::Object(fields) => if fields.contains_key(name) {
            fields[name]
        } else {
            JsonView::Null
        },
        _ => JsonView::Null,
    }
}

/// Reads a JSON text, by `serde_json::from_slice::<Value>`. Which texts are
/// accepted, and what they hold, is [`json_parsed`].
#[verifier::external_body]
pub(crate) fn json_from_slice(text: &[u8]) -> (r: Result<Value, serde_json::Error>)
    ensures
        match r {
            Ok(value) => json_parsed(text@) == Some(json_view(value)),
            Err(_) => json_parsed(text@) is None,
        },
{
    serde_json::from_slice::<Value>(text)
}

/// Writes a value as compact JSON text, by `serde_json::to_vec`, which accepts
/// every `Value`.
#[verifier::external_body]
pub(crate) fn json_to_vec(value: &Value) -> (text: Vec<u8>)
    ensures
        text@ == json_encoded(json_view(*value)),
{
    serde_json::to_vec(value).unwrap()
}

/// Writes a value as compact JSON text, by the `Display` of `Value`.
#[verifier::external_body]
pub(crate) fn json_to_string(value: &Value) -> (text: String)
    ensures
        text@ == json_text(json_view(*value)),
{
    value.to_string()
}

/// A field of a value, by the square brackets of `Value`: null where the value
/// is no object or has no such field.
#[verifier::external_body]
pub(crate) fn json_field<'a>(value: &'a Value, name: &str) -> (field: &'a Value)
    ensures
        json_view(*field) == json_member(json_view(*value), name@),
{
    &value[name]
}

/// The text of a value, by `Value::as_str`: nothing where it is no text.
#[verifier::external_body]
pub(crate) fn json_as_str<'a>(value: &'a Value) -> (text: Option<&'a str>)
    ensures
        match text {
            Some(s) => json_view(*value) == JsonView::Text(s@),
            None => !(json_view(*value) is Text),
        },
{
    value.as_str()
}

/// Whether a value is null, by `Value::is_null`.
#[verifier::external_body]
pub(crate) fn json_is_null(value: &Value) -> (null: bool)
    ensures
        null == (json_view(*value) is Null),
{
    value.is_null()
}

/// A copy of a value, by `Value::clone`: it holds the same tree.
#[verifier::external_body]
pub(crate) fn json_clone(value: &Value) -> (copy: Value)
    ensures
        json_view(copy) == json_view(*value),
{
    value.clone()
}

/// A JSON text, by `Value::from` on a `String`.
#[verifier::external_body]
pub(crate) fn json_from_text(text: String) -> (value: Value)
    ensures
        json_view(value) == JsonView::Text(text@),
{
    Value::from(text)
}

/// A JSON array of bytes, by `Value::from` on a `Vec<u8>`.
#[verifier::external_body]
pub(crate) fn json_from_bytes(bytes: Vec<u8>) -> (value: Value)
    ensures
        json_view(value) == bytes_json(bytes@),
{
    Value::from(bytes)
}

/// A JSON boolean, by `Value::from` on a `bool`.
#[verifier::external_body]
pub(crate) fn json_from_bool(flag: bool) -> (value: Value)
    ensures
        json_view(value) == JsonView::Boolean(flag),
{
    Value::from(flag)
}

/// A JSON integer, by `Value::from` on an `i64`.
#[verifier::external_body]
pub(crate) fn json_from_i64(number: i64) -> (value: Value)
    ensures
        json_view(value) == JsonView::Integer(number as int),
{
    Value::from(number)
}

/// A JSON integer, by `Value::from` on a `u64`.
#[verifier::external_body]
pub(crate) fn json_from_u64(number: u64) -> (value: Value)
    ensures
        json_view(value) == JsonView::Integer(number as int),
{
    Value::from(number)
}

/// A JSON array, by `Value::from` on a `Vec<Value>`.
#[verifier::external_body]
pub(crate) fn json_from_values(values: Vec<Value>) -> (value: Value)
    ensures
        json_view(value) == JsonView::Array(json_views(values@)),
{
    Value::from(values)
}

/// No fields, by `serde_json::Map::new`.
#[verifier::external_body]
pub(crate) fn no_fields() -> (fields: serde_json::Map<String, Value>)
    ensures
        fields_view(fields) == (Map::<Seq<char>, JsonView>::empty()),
{
    serde_json::Map::new()
}

/// Adds a field, by `serde_json::Map::insert`: a field of the same name gets
/// the new value.
#[verifier::external_body]
pub(crate) fn add_field(fields: &mut serde_json::Map<String, Value>, name: &str, value: Value)
    ensures
        fields_view(*final(fields)) == fields_view(*old(fields)).insert(name@, json_view(value)),
{
    fields.insert(name.to_owned(), value);
}

/// A JSON object, by `Value::from` on a `serde_json::Map`.
#[verifier::external_body]
pub(crate) fn json_from_fields(fields: serde_json::Map<String, Value>) -> (value: Value)
    ensures
        json_view(value) == JsonView::Object(fields_view(fields)),
{
    Value::from(fields)
}

/// Copies a list of JSON values.
pub fn copy_values(values: &Vec<Value>) -> (copy: Vec<Value>)
    ensures
        json_views(copy@) == json_views(values@),
{
    let mut copy: Vec<Value> = Vec::new();
    let mut i: usize = 0;
    while i < values.len()
        invariant
            i <= values.len(),
            copy.len() == i,
            forall|j: int| 0 <= j < i ==> json_view(copy@[j]) == json_view(values@[j]),
        decreases values.len() - i,
    {
        copy.push(json_clone(&values[i]));
        i = i + 1;
    }
    assert(json_views(copy@) =~= json_views(values@));
    copy
}

} // verus!
