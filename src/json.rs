use vstd::prelude::*;

verus! {

/// What a JSON document holds, as far as this library reads or writes it.
///
/// An integer is kept by its value; a number that `serde_json` holds as a
/// floating value is kept by the digits that `serde_json` writes for it.
pub enum JsonModel {
    Null,
    Bool(bool),
    Int(int),
    Fractional(Seq<char>),
    Str(Seq<char>),
    Array(Seq<JsonModel>),
    Object(Map<Seq<char>, JsonModel>),
}

#[verifier::external_type_specification]
#[verifier::external_body]
pub struct ExJsonValue(serde_json::Value);

#[verifier::external_type_specification]
#[verifier::external_body]
pub struct ExJsonError(serde_json::Error);

/// What a `serde_json::Value` holds.
pub uninterp spec fn json_of(v: serde_json::Value) -> JsonModel;

/// What `serde_json::from_slice::<Value>` makes of a byte string: `None` where
/// the bytes are not one well-formed JSON document.
pub uninterp spec fn parse_json(b: Seq<u8>) -> Option<JsonModel>;

/// The bytes that `serde_json::to_vec` writes for a document.
pub uninterp spec fn json_text(m: JsonModel) -> Seq<u8>;

/// The value under `key`, where `m` is an object that has that key.
pub open spec fn field_of(m: JsonModel, key: Seq<char>) -> Option<JsonModel> {
    match m {
        JsonModel::Object(fields) => if fields.contains_key(key) {
            Some(fields[key])
        } else {
            None
        },
        _ => None,
    }
}

/// Relies on `serde_json::Value::String`: a string value.
#[verifier::external_body]
pub(crate) fn json_string(s: String) -> (r: serde_json::Value)
    ensures
        json_of(r) == JsonModel::Str(s@),
{
    serde_json::Value::String(s)
}

/// Relies on `serde_json::Value::Bool`: a boolean value.
#[verifier::external_body]
pub(crate) fn json_bool(b: bool) -> (r: serde_json::Value)
    ensures
        json_of(r) == JsonModel::Bool(b),
{
    serde_json::Value::Bool(b)
}

/// Relies on `serde_json::Value::Array`: an array of the given items, in order.
#[verifier::external_body]
pub(crate) fn json_array(items: Vec<serde_json::Value>) -> (r: serde_json::Value)
    ensures
        json_of(r) == JsonModel::Array(items@.map_values(|v: serde_json::Value| json_of(v))),
{
    serde_json::Value::Array(items)
}

/// Relies on `serde_json::Map::new`: an object with no keys.
#[verifier::external_body]
pub(crate) fn json_object() -> (r: serde_json::Value)
    ensures
        json_of(r) == JsonModel::Object(Map::empty()),
{
    serde_json::Value::Object(serde_json::Map::new())
}

/// Relies on `serde_json::Map::insert`: sets `key` to `val`, replacing any
/// earlier value under that key.
#[verifier::external_body]
pub(crate) fn json_insert(obj: &mut serde_json::Value, key: String, val: serde_json::Value)
    requires
        json_of(*old(obj)) is Object,
    ensures
        json_of(*final(obj)) == JsonModel::Object(
            json_of(*old(obj))->Object_0.insert(key@, json_of(val)),
        ),
{
    if let serde_json::Value::Object(m) = obj {
        m.insert(key, val);
    }
}

/// Relies on `serde_json::to_vec`: the text of a document. Writing a `Value`
/// cannot fail, as all its object keys are strings.
#[verifier::external_body]
pub(crate) fn json_to_bytes(v: &serde_json::Value) -> (r: Vec<u8>)
    ensures
        r@ == json_text(json_of(*v)),
{
    serde_json::to_vec(v).unwrap_or_default()
}

/// Relies on `serde_json::from_slice::<Value>`: parses one JSON document.
#[verifier::external_body]
pub(crate) fn json_from_bytes(b: &[u8]) -> (r: Result<serde_json::Value, serde_json::Error>)
    ensures
        match r {
            Ok(v) => parse_json(b@) == Some(json_of(v)),
            Err(_) => parse_json(b@) is None,
        },
{
    serde_json::from_slice::<serde_json::Value>(b)
}

/// Relies on `serde_json::Value::get` with a string key: the value under that
/// key of an object, and nothing for any other value.
#[verifier::external_body]
pub(crate) fn json_get(v: &serde_json::Value, key: &str) -> (r: Option<serde_json::Value>)
    ensures
        match field_of(json_of(*v), key@) {
            Some(m) => r is Some && json_of(r->Some_0) == m,
            None => r is None,
        },
{
    v.get(key).cloned()
}

/// Relies on `serde_json::Value::as_str`: the text of a string value.
#[verifier::external_body]
pub(crate) fn json_as_str(v: &serde_json::Value) -> (r: Option<String>)
    ensures
        match json_of(*v) {
            JsonModel::Str(s) => r is Some && r->Some_0@ == s,
            _ => r is None,
        },
{
    v.as_str().map(String::from)
}

/// Relies on `serde_json::Value::as_i64`: an integer that fits an `i64`.
#[verifier::external_body]
pub(crate) fn json_as_i64(v: &serde_json::Value) -> (r: Option<i64>)
    ensures
        match json_of(*v) {
            JsonModel::Int(n) => if i64::MIN <= n <= i64::MAX {
                r is Some && r->Some_0 as int == n
            } else {
                r is None
            },
            _ => r is None,
        },
{
    v.as_i64()
}

/// Relies on `serde_json::Value::as_bool`: a boolean value.
#[verifier::external_body]
pub(crate) fn json_as_bool(v: &serde_json::Value) -> (r: Option<bool>)
    ensures
        match json_of(*v) {
            JsonModel::Bool(b) => r == Some(b),
            _ => r is None,
        },
{
    v.as_bool()
}

/// Relies on `serde_json::Value::as_array`: the items of an array, in order.
#[verifier::external_body]
pub(crate) fn json_as_array(v: &serde_json::Value) -> (r: Option<Vec<serde_json::Value>>)
    ensures
        match json_of(*v) {
            JsonModel::Array(items) => r is Some && r->Some_0@.len() == items.len() && forall|i: int|
                0 <= i < items.len() ==> json_of(#[trigger] r->Some_0@[i]) == items[i],
            _ => r is None,
        },
{
    v.as_array().cloned()
}

/// Relies on `serde_json::Value::is_null`.
#[verifier::external_body]
pub(crate) fn json_is_null(v: &serde_json::Value) -> (r: bool)
    ensures
        r == (json_of(*v) is Null),
{
    v.is_null()
}

/// Relies on `serde_json::Value::is_object`.
#[verifier::external_body]
pub(crate) fn json_is_object(v: &serde_json::Value) -> (r: bool)
    ensures
        r == (json_of(*v) is Object),
{
    v.is_object()
}

} // verus!
