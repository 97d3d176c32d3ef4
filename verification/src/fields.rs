//! Reading the members of a JSON object by name and by type.

use crate::json::{as_array, as_number, as_text, doc_of, docs_of, member, Doc};
use serde_json::{Number, Value};
use vstd::prelude::*;

verus! {

/// The members that this crate reads: those of a pizza record and those of
/// the store's answers.
#[derive(Clone, Copy, Debug, PartialEq, Eq, Structural)]
pub enum Field {
    /// `id`, the identifier of a pizza, and `_id`, the identifier that the
    /// store gave a document.
    Id,
    /// `name`.
    Name,
    /// `description`.
    Description,
    /// `price`.
    Price,
    /// `ingredients`.
    Ingredients,
    /// `_source`, the document of a search hit.
    Source,
    /// `hits.hits`, the list of hits in the answer to a search.
    Hits,
}

/// Why a document does not have the shape that was asked for.
#[derive(Clone, Copy, Debug, PartialEq, Eq, Structural)]
pub enum DeserializationError {
    /// The document is no object, or it is one without this member.
    Missing(Field),
    /// The member is there, but it is not of the JSON type that the field has.
    Invalid(Field),
}

/// The string member `key` of `doc`.
pub open spec fn text_member(doc: Doc, key: Seq<char>, field: Field) -> Result<
    Seq<char>,
    DeserializationError,
> {
    match doc.member(key) {
        None => Err(DeserializationError::Missing(field)),
        Some(Doc::Text(text)) => Ok(text),
        Some(_) => Err(DeserializationError::Invalid(field)),
    }
}

/// The number member `key` of `doc`.
pub open spec fn number_member(doc: Doc, key: Seq<char>, field: Field) -> Result<
    Number,
    DeserializationError,
> {
    match doc.member(key) {
        None => Err(DeserializationError::Missing(field)),
        Some(Doc::Number(number)) => Ok(number),
        Some(_) => Err(DeserializationError::Invalid(field)),
    }
}

/// Whether every document of `items` is a string.
pub open spec fn all_text(items: Seq<Doc>) -> bool {
    forall|i: int| 0 <= i < items.len() ==> #[trigger] items[i] is Text
}

/// The strings that the documents of `items` hold, in order.
pub open spec fn texts(items: Seq<Doc>) -> Seq<Seq<char>>
    recommends
        all_text(items),
{
    items.map_values(|item: Doc| item->Text_0)
}

/// The member `key` of `doc` as a list of strings: an array whose elements are
/// all strings.
pub open spec fn texts_member(doc: Doc, key: Seq<char>, field: Field) -> Result<
    Seq<Seq<char>>,
    DeserializationError,
> {
    match doc.member(key) {
        None => Err(DeserializationError::Missing(field)),
        Some(Doc::Array(items)) => if all_text(items) {
            Ok(texts(items))
        } else {
            Err(DeserializationError::Invalid(field))
        },
        Some(_) => Err(DeserializationError::Invalid(field)),
    }
}

/// The characters of each string of `strings`, in order.
pub open spec fn views(strings: Seq<String>) -> Seq<Seq<char>> {
    strings.map_values(|s: String| s@)
}

/// Reads the string member `key` of `value`.
pub fn read_text(value: &Value, key: &str, field: Field) -> (read: Result<
    String,
    DeserializationError,
>)
    ensures
        match (read, text_member(doc_of(*value), key@, field)) {
            (Ok(string), Ok(text)) => string@ == text,
            (Err(e), Err(expected)) => e == expected,
            _ => false,
        },
{
    match member(value, key) {
        None => Err(DeserializationError::Missing(field)),
        Some(inner) => match as_text(inner) {
            Some(s) => Ok(s.to_owned()),
            None => Err(DeserializationError::Invalid(field)),
        },
    }
}

/// Reads the number member `key` of `value`.
pub fn read_number(value: &Value, key: &str, field: Field) -> (read: Result<
    Number,
    DeserializationError,
>)
    ensures
        read == number_member(doc_of(*value), key@, field),
{
    match member(value, key) {
        None => Err(DeserializationError::Missing(field)),
        Some(inner) => match as_number(inner) {
            Some(n) => Ok(n.clone()),
            None => Err(DeserializationError::Invalid(field)),
        },
    }
}

/// Reads the member `key` of `value` as a list of strings.
pub fn read_texts(value: &Value, key: &str, field: Field) -> (read: Result<
    Vec<String>,
    DeserializationError,
>)
    ensures
        match (read, texts_member(doc_of(*value), key@, field)) {
            (Ok(strings), Ok(list)) => views(strings@) == list,
            (Err(e), Err(expected)) => e == expected,
            _ => false,
        },
{
    let items = match member(value, key) {
        None => {
            return Err(DeserializationError::Missing(field));
        },
        Some(inner) => match as_array(inner) {
            None => {
                return Err(DeserializationError::Invalid(field));
            },
            Some(items) => items,
        },
    };
    let ghost docs = doc_of(*value).member(key@).unwrap()->Array_0;
    let mut strings: Vec<String> = Vec::new();
    let mut i: usize = 0;
    while i < items.len()
        invariant
            i <= items.len(),
            doc_of(*value).member(key@) == Some(Doc::Array(docs)),
            docs == docs_of(items@),
            strings.len() == i,
            forall|j: int| 0 <= j < i ==> #[trigger] docs[j] == Doc::Text(strings[j]@),
        decreases items.len() - i,
    {
        match as_text(&items[i]) {
            None => {
                assert(!(docs[i as int] is Text));
                return Err(DeserializationError::Invalid(field));
            },
            Some(s) => {
                strings.push(s.to_owned());
            },
        }
        i += 1;
    }
    assert(all_text(docs));
    assert(texts(docs) =~= views(strings@));
    Ok(strings)
}

} // verus!
