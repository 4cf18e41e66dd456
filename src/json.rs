use vstd::prelude::*;

verus! {

/// A JSON document as a mathematical value. Numbers and booleans are kept
/// only as far as this client needs them: it never reads one.
pub ghost enum Json {
    Null,
    Bool,
    Number,
    Str(Seq<char>),
    Array(Seq<Json>),
    Object(Map<Seq<char>, Json>),
}

#[verifier::external_type_specification]
#[verifier::external_body]
pub struct ExJsonValue(serde_json::Value);

#[verifier::external_type_specification]
#[verifier::external_body]
pub struct ExJsonError(serde_json::Error);

/// The document held by a `serde_json::Value`.
pub uninterp spec fn json_model(v: serde_json::Value) -> Json;

/// The document that `serde_json` reads from a text, if it reads one.
pub uninterp spec fn parsed_json(s: Seq<char>) -> Option<Json>;

/// Relies on serde_json::from_str into a `Value`: whether it succeeds, and
/// the document it reads, depend on the text alone.
#[verifier::external_body]
pub(crate) fn parse_json(text: &str) -> (r: Result<serde_json::Value, serde_json::Error>)
    ensures
        match r {
            Ok(v) => parsed_json(text@) == Some(json_model(v)),
            Err(_) => parsed_json(text@) is None,
        },
{
    serde_json::from_str::<serde_json::Value>(text)
}

/// Relies on serde_json::Value::get with a string index: the member of an
/// object under that key, and `None` for a missing key or a non-object.
#[verifier::external_body]
pub(crate) fn json_member<'a>(v: &'a serde_json::Value, key: &str) -> (r: Option<
    &'a serde_json::Value,
>)
    ensures
        match json_model(*v) {
            Json::Object(m) => if m.contains_key(key@) {
                r is Some && json_model(*r->0) == m[key@]
            } else {
                r is None
            },
            _ => r is None,
        },
{
    v.get(key)
}

/// serde_json::Value::as_str: the text of a string, `None` otherwise.
pub assume_specification<'a>[ serde_json::Value::as_str ](v: &'a serde_json::Value) -> (r: Option<
    &'a str,
>)
    ensures
        match json_model(*v) {
            Json::Str(s) => r is Some && r->0@ == s,
            _ => r is None,
        },
;

/// serde_json::Value::as_array: the elements of an array, `None` otherwise.
pub assume_specification<'a>[ serde_json::Value::as_array ](v: &'a serde_json::Value) -> (r: Option<
    &'a Vec<serde_json::Value>,
>)
    ensures
        match json_model(*v) {
            Json::Array(items) => r is Some && r->0@.len() == items.len() && forall|i: int|
                0 <= i < items.len() ==> json_model(#[trigger] r->0@[i]) == items[i],
            _ => r is None,
        },
;

/// serde_json::Value::is_null: whether the value is `null`.
pub assume_specification[ serde_json::Value::is_null ](v: &serde_json::Value) -> (r: bool)
    ensures
        r == (json_model(*v) is Null),
;

} // verus!
