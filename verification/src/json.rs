//! The trusted boundary to serde_json.
//!
//! `serde_json::Value` is opaque to the verifier, so this module gives it a
//! mathematical model, [`JsonData`], through the uninterpreted function
//! [`json_model`], and wraps the handful of accessors the crate calls. Each
//! wrapper's contract states, over the model, exactly what the accessor's
//! source does. Everything downstream is verified against these contracts;
//! nothing else in the crate is trusted.

use vstd::prelude::*;

use serde_json::Value;

verus! {

#[verifier::external_type_specification]
#[verifier::external_body]
pub struct ExValue(Value);

/// The mathematical value of a JSON document. A number is modelled by its
/// decimal rendering — the text serde_json displays for it — which is all the
/// crate reads of a number; an object by the field map serde_json keeps.
pub ghost enum JsonData {
    Null,
    Bool(bool),
    Num(Seq<char>),
    Str(Seq<char>),
    Arr(Seq<JsonData>),
    Obj(Map<Seq<char>, JsonData>),
}

/// What a `serde_json::Value` holds, as a [`JsonData`].
pub uninterp spec fn json_model(v: Value) -> JsonData;

/// What parsing a text as JSON yields: the model of the parsed document, or
/// nothing where the text is not valid JSON. A function of the text alone.
pub uninterp spec fn json_parsed(s: Seq<char>) -> Option<JsonData>;

/// Relies on serde_json::from_str::<Value>: whether a text parses, and to
/// which document, depends on the text alone.
#[verifier::external_body]
pub fn parse_json(s: &str) -> (r: Option<Value>)
    ensures
        match r {
            Some(v) => json_parsed(s@) == Some(json_model(v)),
            None => json_parsed(s@) is None,
        },
{
    serde_json::from_str(s).ok()
}

/// Relies on serde_json::Value::as_array: `Some` of the element vector
/// exactly when the value is an array.
#[verifier::external_body]
pub(crate) fn value_as_array(v: &Value) -> (r: Option<&Vec<Value>>)
    ensures
        match json_model(*v) {
            JsonData::Arr(elems) => match r {
                Some(a) => a@.len() == elems.len() && forall|i: int|
                    0 <= i < elems.len() ==> #[trigger] json_model(a@[i]) == elems[i],
                None => false,
            },
            _ => r is None,
        },
{
    v.as_array()
}

/// Relies on serde_json::Value::get with a string index: on an object, the
/// field under the key; `None` on other values and on absent keys.
#[verifier::external_body]
pub(crate) fn value_get<'a>(v: &'a Value, key: &str) -> (r: Option<&'a Value>)
    ensures
        match json_model(*v) {
            JsonData::Obj(fields) => match r {
                Some(f) => fields.dom().contains(key@) && json_model(*f) == fields[key@],
                None => !fields.dom().contains(key@),
            },
            _ => r is None,
        },
{
    v.get(key)
}

/// Relies on serde_json::Value::as_str: `Some` of the text exactly when the
/// value is a string.
#[verifier::external_body]
pub(crate) fn value_as_str<'a>(v: &'a Value) -> (r: Option<&'a str>)
    ensures
        match json_model(*v) {
            JsonData::Str(text) => match r {
                Some(t) => t@ == text,
                None => false,
            },
            _ => r is None,
        },
{
    v.as_str()
}

/// Relies on serde_json::Number's Display: renders the number's decimal text,
/// a function of the number alone (the text the model carries).
#[verifier::external_body]
pub(crate) fn value_number_text(v: &Value) -> (r: Option<String>)
    ensures
        match json_model(*v) {
            JsonData::Num(text) => match r {
                Some(t) => t@ == text,
                None => false,
            },
            _ => r is None,
        },
{
    match v {
        Value::Number(n) => Some(n.to_string()),
        _ => None,
    }
}

} // verus!
