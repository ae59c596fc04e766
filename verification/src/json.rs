//! JSON values, held and written by `serde_json`.
//!
//! [`Json`] is what a value holds; [`contents`] and [`fields`] name it for a value and for an
//! object. Everything else here is a call into `serde_json` whose effect is stated over those
//! names and taken on trust.
use vstd::prelude::*;

verus! {

/// What a JSON value holds.
pub enum Json {
    Null,
    Bool(bool),
    /// A number, by its text.
    Number(Seq<char>),
    Text(Seq<char>),
    Array(Seq<Json>),
    Object(Map<Seq<char>, Json>),
}

/// `serde_json::Value`, seen only through [`contents`].
#[verifier::external_type_specification]
#[verifier::external_body]
pub struct ExValue(serde_json::Value);

/// `serde_json::Map`, seen only through [`fields`].
#[verifier::external_type_specification]
#[verifier::external_body]
#[verifier::reject_recursive_types(K)]
#[verifier::reject_recursive_types(V)]
pub struct ExObject<K, V>(serde_json::Map<K, V>);

/// What a value holds.
pub uninterp spec fn contents(value: serde_json::Value) -> Json;

/// The fields of an object, by name.
pub uninterp spec fn fields(
    object: serde_json::Map<String, serde_json::Value>,
) -> Map<Seq<char>, Json>;

/// An object without fields.
pub open spec fn no_fields() -> Map<Seq<char>, Json> {
    Map::empty()
}

/// The compact JSON text of a value, as `serde_json` writes it.
pub uninterp spec fn json_text(value: Json) -> Seq<char>;

/// `serde_json::Map::new` makes an object without fields.
#[verifier::external_body]
pub(crate) fn new_object() -> (r: serde_json::Map<String, serde_json::Value>)
    ensures
        fields(r) == no_fields(),
{
    serde_json::Map::new()
}

/// `serde_json::Map::insert` sets one field and leaves the others as they are. The value that
/// the field had before is dropped.
#[verifier::external_body]
pub(crate) fn set_field(
    object: &mut serde_json::Map<String, serde_json::Value>,
    name: &str,
    value: serde_json::Value,
)
    ensures
        fields(*final(object)) == fields(*old(object)).insert(name@, contents(value)),
{
    object.insert(name.to_string(), value);
}

/// `serde_json::Map::is_empty` tells whether an object has no fields.
#[verifier::external_body]
pub(crate) fn has_no_fields(object: &serde_json::Map<String, serde_json::Value>) -> (r: bool)
    ensures
        r == (fields(*object) == no_fields()),
{
    object.is_empty()
}

/// `serde_json::Value::Object` holds the fields of the object.
#[verifier::external_body]
pub(crate) fn object_value(object: serde_json::Map<String, serde_json::Value>) -> (r:
    serde_json::Value)
    ensures
        contents(r) == Json::Object(fields(object)),
{
    serde_json::Value::Object(object)
}

/// `serde_json::Value::from` of a `u64` holds the number, whose text is its decimal form.
#[verifier::external_body]
pub(crate) fn number_value(n: u64) -> (r: serde_json::Value)
    ensures
        contents(r) == Json::Number(crate::text::decimal(n as nat)),
{
    serde_json::Value::from(n)
}

/// `serde_json::Value::Bool` holds the truth value.
#[verifier::external_body]
pub(crate) fn bool_value(b: bool) -> (r: serde_json::Value)
    ensures
        contents(r) == Json::Bool(b),
{
    serde_json::Value::Bool(b)
}

/// `serde_json::Value::String` holds the text.
#[verifier::external_body]
pub(crate) fn text_value(s: String) -> (r: serde_json::Value)
    ensures
        contents(r) == Json::Text(s@),
{
    serde_json::Value::String(s)
}

/// `serde_json::Value::Array` holds the items in their order.
#[verifier::external_body]
pub(crate) fn array_value(items: Vec<serde_json::Value>) -> (r: serde_json::Value)
    ensures
        contents(r) == Json::Array(Seq::new(items@.len(), |i: int| contents(items@[i]))),
{
    serde_json::Value::Array(items)
}

/// `serde_json::Value::clone` holds what the value holds.
#[verifier::external_body]
pub(crate) fn copied_value(value: &serde_json::Value) -> (r: serde_json::Value)
    ensures
        contents(r) == contents(*value),
{
    value.clone()
}

/// `serde_json::Value::to_string` gives the compact JSON text of what the value holds. The fields
/// of an object come in the order of their names, so the text depends on nothing else.
#[verifier::external_body]
pub(crate) fn value_text(value: &serde_json::Value) -> (r: String)
    ensures
        r@ == json_text(contents(*value)),
{
    value.to_string()
}

} // verus!
