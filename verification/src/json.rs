//! JSON documents.
//!
//! Documents are `serde_json::Value`s. The verifier cannot look inside one, so
//! this module gives the content of a value a mathematical name, [`doc_of`],
//! and wraps the handful of `serde_json` operations the crate needs. The
//! contract of each wrapper is believed, not proved: it restates, over
//! [`doc_of`], what the wrapped operation does.

use serde_json::{Number, Value};
use vstd::prelude::*;

verus! {

/// `serde_json::Value`, a JSON document. What one holds is [`doc_of`] it.
#[verifier::external_type_specification]
#[verifier::external_body]
pub struct ExValue(serde_json::Value);

/// `serde_json::Number`, a JSON number. Nothing is said of what one holds.
#[verifier::external_type_specification]
#[verifier::external_body]
pub struct ExNumber(serde_json::Number);

/// The content of a JSON document.
///
/// Strings are sequences of characters, arrays are sequences of documents and
/// objects are finite maps from member names to documents. A number stays the
/// `serde_json::Number` it is: nothing in this crate looks inside one.
pub ghost enum Doc {
    Null,
    Bool(bool),
    Number(Number),
    Text(Seq<char>),
    Array(Seq<Doc>),
    Object(Map<Seq<char>, Doc>),
}

/// The content of `value`: `Value::Null` is `Doc::Null`, `Value::Bool(b)` is
/// `Doc::Bool(b)`, `Value::Number(n)` is `Doc::Number(n)`, `Value::String(s)`
/// is `Doc::Text` of the characters of `s`, `Value::Array(a)` is `Doc::Array`
/// of the contents of the elements of `a` in order, and `Value::Object(m)` is
/// `Doc::Object` of the map that sends the characters of each key of `m` to
/// the content of its value.
pub uninterp spec fn doc_of(value: Value) -> Doc;

/// The contents of a sequence of values, element by element.
pub open spec fn docs_of(values: Seq<Value>) -> Seq<Doc> {
    values.map_values(|value: Value| doc_of(value))
}

impl Doc {
    /// The member called `key`, where this document is an object that has one.
    pub open spec fn member(self, key: Seq<char>) -> Option<Doc> {
        match self {
            Doc::Object(members) => if members.contains_key(key) {
                Some(members[key])
            } else {
                None
            },
            _ => None,
        }
    }

    /// The object with no members.
    pub open spec fn empty_object() -> Doc {
        Doc::Object(Map::empty())
    }

    /// This object with `member` under `key`, in place of any member it had
    /// there.
    pub open spec fn with_member(self, key: Seq<char>, member: Doc) -> Doc
        recommends
            self is Object,
    {
        Doc::Object(self->Object_0.insert(key, member))
    }
}

/// `Value::get` with a string key. It returns the member stored under `key`
/// if `value` is an object that has one, and `None` otherwise: for a missing
/// key and for every value that is not an object.
#[verifier::external_body]
pub(crate) fn member<'a>(value: &'a Value, key: &str) -> (found: Option<&'a Value>)
    ensures
        match found {
            Some(inner) => doc_of(*value).member(key@) == Some(doc_of(*inner)),
            None => doc_of(*value).member(key@) is None,
        },
{
    value.get(key)
}

/// `Value::as_str`. It returns the string slice of a `Value::String` and
/// `None` for every other value.
#[verifier::external_body]
pub(crate) fn as_text(value: &Value) -> (text: Option<&str>)
    ensures
        match text {
            Some(s) => doc_of(*value) == Doc::Text(s@),
            None => !(doc_of(*value) is Text),
        },
{
    value.as_str()
}

/// `Value::as_array`. It returns the vector of a `Value::Array` and `None`
/// for every other value.
#[verifier::external_body]
pub(crate) fn as_array(value: &Value) -> (items: Option<&Vec<Value>>)
    ensures
        match items {
            Some(list) => doc_of(*value) == Doc::Array(docs_of(list@)),
            None => !(doc_of(*value) is Array),
        },
{
    value.as_array()
}

/// `Value::as_number`. It returns the number of a `Value::Number` and `None`
/// for every other value.
#[verifier::external_body]
pub(crate) fn as_number(value: &Value) -> (number: Option<&Number>)
    ensures
        match number {
            Some(n) => doc_of(*value) == Doc::Number(*n),
            None => !(doc_of(*value) is Number),
        },
{
    value.as_number()
}

/// `Number::clone`, which `Number` derives: the clone is the same number.
pub assume_specification[ <serde_json::Number as Clone>::clone ](
    number: &serde_json::Number,
) -> (copy: serde_json::Number)
    ensures
        copy == *number,
;

/// `Value::from` on a string slice. It returns the `Value::String` that holds
/// a copy of `text`.
#[verifier::external_body]
pub(crate) fn from_text(text: &str) -> (value: Value)
    ensures
        doc_of(value) == Doc::Text(text@),
{
    Value::from(text)
}

/// `Value::Number` on `number`.
#[verifier::external_body]
pub(crate) fn from_number(number: Number) -> (value: Value)
    ensures
        doc_of(value) == Doc::Number(number),
{
    Value::Number(number)
}

/// `Value::Array` on `items`: the array of these values in this order.
#[verifier::external_body]
pub(crate) fn from_items(items: Vec<Value>) -> (value: Value)
    ensures
        doc_of(value) == Doc::Array(docs_of(items@)),
{
    Value::Array(items)
}

/// `Value::Object` on `Map::new()`: the object with no members.
#[verifier::external_body]
pub(crate) fn empty_object() -> (value: Value)
    ensures
        doc_of(value) == Doc::empty_object(),
{
    Value::Object(serde_json::Map::new())
}

/// `Map::insert` on the map of an object. Afterwards the object holds
/// `member` under `key`, in place of any member it had there, and its other
/// members are unchanged. The value must be an object: on any other value
/// the body would panic.
#[verifier::external_body]
pub(crate) fn set_member(object: &mut Value, key: &str, member: Value)
    requires
        doc_of(*old(object)) is Object,
    ensures
        doc_of(*final(object)) == doc_of(*old(object)).with_member(key@, doc_of(member)),
{
    object.as_object_mut().unwrap().insert(key.to_owned(), member);
}

} // verus!
