//! Opaque JSON documents. Payload bytes are parsed by serde_json; the
//! library sees the parsed value only through the ghost model `jmodel` and
//! reads it through small trusted accessors whose contracts speak of that
//! model. Everything done with a document afterwards is verified.

use vstd::prelude::*;

verus! {

#[verifier::external_type_specification]
#[verifier::external_body]
pub struct ExJsonValue(serde_json::Value);

/// Ghost shape of a JSON document: exactly what the decoders read of one.
/// A number is represented by its unsigned 64-bit reading, if it has one;
/// an object by the map from member name to member value.
pub enum JVal {
    Null,
    Bool(bool),
    Num(Option<u64>),
    Str(Seq<char>),
    Arr(Seq<JVal>),
    Obj(Map<Seq<char>, JVal>),
}

/// The model of a parsed JSON value.
pub uninterp spec fn jmodel(v: serde_json::Value) -> JVal;

/// What parsing a byte payload as one JSON document yields: the document's
/// model, or the parser's diagnostic text. Both are functions of the bytes
/// alone.
pub uninterp spec fn json_doc(b: Seq<u8>) -> Result<JVal, Seq<char>>;

/// Relies on serde_json::from_slice for Value: parsing is a function of the
/// bytes alone, it fails exactly where the named parse fails, and the error
/// carries serde_json's own diagnostic text.
#[verifier::external_body]
pub(crate) fn parse_json(b: &Vec<u8>) -> (r: Result<serde_json::Value, String>)
    ensures
        (r matches Ok(v) ==> (json_doc(b@) matches Ok(m) && jmodel(v) == m)),
        (r matches Err(m) ==> (json_doc(b@) matches Err(d) && m@ == d)),
{
    serde_json::from_slice::<serde_json::Value>(b).map_err(|e| e.to_string())
}

/// Relies on serde_json::Value::is_null.
#[verifier::external_body]
pub(crate) fn json_is_null(v: &serde_json::Value) -> (r: bool)
    ensures
        r == (jmodel(*v) is Null),
{
    v.is_null()
}

/// Relies on serde_json::Value::is_object.
#[verifier::external_body]
pub(crate) fn json_is_object(v: &serde_json::Value) -> (r: bool)
    ensures
        r == (jmodel(*v) is Obj),
{
    v.is_object()
}

/// Relies on serde_json::Value::as_str: the characters of a string value,
/// None for every other kind of value.
#[verifier::external_body]
pub(crate) fn json_as_str<'a>(v: &'a serde_json::Value) -> (r: Option<&'a str>)
    ensures
        match jmodel(*v) {
            JVal::Str(s) => r matches Some(t) && t@ == s,
            _ => r is None,
        },
{
    v.as_str()
}

/// Relies on serde_json::Value::as_u64: the unsigned 64-bit reading of a
/// number value, None where there is none.
#[verifier::external_body]
pub(crate) fn json_as_u64(v: &serde_json::Value) -> (r: Option<u64>)
    ensures
        match jmodel(*v) {
            JVal::Num(n) => r == n,
            _ => r is None,
        },
{
    v.as_u64()
}

/// Relies on serde_json::Value::as_array: the elements of an array value in
/// order, None for every other kind of value.
#[verifier::external_body]
pub(crate) fn json_as_array<'a>(v: &'a serde_json::Value) -> (r: Option<
    &'a Vec<serde_json::Value>,
>)
    ensures
        match jmodel(*v) {
            JVal::Arr(s) => r matches Some(a) && a@.len() == s.len() && (forall|i: int|
                0 <= i < s.len() ==> #[trigger] jmodel(a@[i]) == s[i]),
            _ => r is None,
        },
{
    v.as_array()
}

/// Relies on serde_json::Value::get with a string key: member lookup in an
/// object value, None for a missing member or any other kind of value.
#[verifier::external_body]
pub(crate) fn json_get<'a>(v: &'a serde_json::Value, key: &str) -> (r: Option<
    &'a serde_json::Value,
>)
    ensures
        match jmodel(*v) {
            JVal::Obj(m) => {
                &&& (m.dom().contains(key@) ==> (r matches Some(x) && jmodel(*x) == m[key@]))
                &&& (!m.dom().contains(key@) ==> r is None)
            },
            _ => r is None,
        },
{
    v.get(key)
}

} // verus!
