//! The document store, as far as the service knows it.
//!
//! The service asks two things of the store: to keep a document in an index,
//! and to return every document of an index. This module says what is sent
//! for each ([`StoreRequest`]), what can come back ([`StoreOutcome`]), and
//! how pizzas are read out of the store's answers. Sending is the caller's
//! part.

use crate::fields::{read_text, text_member, DeserializationError, Field};
use crate::json::{as_array, doc_of, docs_of, empty_object, member, set_member, Doc};
use crate::pizza::{Pizza, PizzaCreate, PizzaCreateView, PizzaView};
use serde_json::Value;
use vstd::prelude::*;

verus! {

/// The status with which the store answers when it has created a document.
pub const CREATED: u16 = 201;

/// What the service asks of the store.
#[derive(Debug, PartialEq, Eq)]
pub enum StoreRequest {
    /// Keep `document` in the index `index`, under an identifier that the
    /// store assigns.
    Insert { index: String, document: Value },
    /// Return the documents of the index `index` that match `query`.
    Search { index: String, query: Value },
}

/// What a [`StoreRequest`] holds.
pub ghost enum StoreRequestView {
    Insert { index: Seq<char>, document: Doc },
    Search { index: Seq<char>, query: Doc },
}

impl View for StoreRequest {
    type V = StoreRequestView;

    open spec fn view(&self) -> StoreRequestView {
        match self {
            StoreRequest::Insert { index, document } => StoreRequestView::Insert {
                index: index@,
                document: doc_of(*document),
            },
            StoreRequest::Search { index, query } => StoreRequestView::Search {
                index: index@,
                query: doc_of(*query),
            },
        }
    }
}

/// How a request to the store ended.
#[derive(Debug, PartialEq, Eq)]
pub enum StoreOutcome {
    /// The store could not be reached, or it gave no answer.
    Unreachable,
    /// The store answered with this HTTP status. `body` is the JSON document
    /// of the answer, and `None` where the body of the answer is not JSON.
    Answered { status: u16, body: Option<Value> },
}

/// What a [`StoreOutcome`] holds.
pub ghost enum StoreOutcomeView {
    Unreachable,
    Answered { status: u16, body: Option<Doc> },
}

impl View for StoreOutcome {
    type V = StoreOutcomeView;

    open spec fn view(&self) -> StoreOutcomeView {
        match self {
            StoreOutcome::Unreachable => StoreOutcomeView::Unreachable,
            StoreOutcome::Answered { status, body } => StoreOutcomeView::Answered {
                status: *status,
                body: match body {
                    Some(value) => Some(doc_of(*value)),
                    None => None,
                },
            },
        }
    }
}

/// The query that matches every document: `{"query": {"match_all": {}}}`.
pub open spec fn match_all() -> Doc {
    Doc::Object(map!["query"@ => Doc::Object(map!["match_all"@ => Doc::empty_object()])])
}

/// The request to keep the document `body` in the index `index_name`.
pub fn add_document(index_name: &str, body: Value) -> (request: StoreRequest)
    ensures
        request matches StoreRequest::Insert { index, document } && index@ == index_name@
            && document == body,
{
    StoreRequest::Insert { index: index_name.to_owned(), document: body }
}

/// The request for every document of the index `index_name`.
pub fn query_all(index_name: &str) -> (request: StoreRequest)
    ensures
        request@ == (StoreRequestView::Search { index: index_name@, query: match_all() }),
{
    let mut match_all = empty_object();
    set_member(&mut match_all, "match_all", empty_object());
    let mut query = empty_object();
    set_member(&mut query, "query", match_all);
    StoreRequest::Search { index: index_name.to_owned(), query }
}

/// The identifier in the store's answer to an insert: its string member
/// `_id`.
pub open spec fn decode_created(body: Doc) -> Result<Seq<char>, DeserializationError> {
    text_member(body, "_id"@, Field::Id)
}

/// The hits in the store's answer to a search: the array `hits` of its member
/// `hits`.
pub open spec fn decode_hit_list(body: Doc) -> Result<Seq<Doc>, DeserializationError> {
    match body.member("hits"@) {
        None => Err(DeserializationError::Missing(Field::Hits)),
        Some(found) => match found.member("hits"@) {
            None => Err(DeserializationError::Missing(Field::Hits)),
            Some(Doc::Array(hits)) => Ok(hits),
            Some(_) => Err(DeserializationError::Invalid(Field::Hits)),
        },
    }
}

/// The pizza of one hit: the record in its member `_source`, with the string
/// in its member `_id` as the identifier. The record is read first.
pub open spec fn decode_hit(hit: Doc) -> Result<PizzaView, DeserializationError> {
    match hit.member("_source"@) {
        None => Err(DeserializationError::Missing(Field::Source)),
        Some(source) => {
            let data = PizzaCreateView::decode(source);
            let id = text_member(hit, "_id"@, Field::Id);
            if data is Err {
                Err(data->Err_0)
            } else if id is Err {
                Err(id->Err_0)
            } else {
                Ok(data->Ok_0.with_id(id->Ok_0))
            }
        },
    }
}

/// Whether `hits[k]` is the first hit that is not the hit of a pizza.
pub open spec fn first_failure(hits: Seq<Doc>, k: int) -> bool {
    &&& 0 <= k < hits.len()
    &&& decode_hit(hits[k]) is Err
    &&& forall|j: int| 0 <= j < k ==> (#[trigger] decode_hit(hits[j])) is Ok
}

/// The pizzas of a list of hits, in the order of the hits; or, where a hit is
/// not the hit of a pizza, the error of the first such hit.
pub open spec fn decode_hits(hits: Seq<Doc>) -> Result<Seq<PizzaView>, DeserializationError> {
    if exists|k: int| first_failure(hits, k) {
        let k = choose|k: int| first_failure(hits, k);
        Err(decode_hit(hits[k])->Err_0)
    } else {
        Ok(hits.map_values(|hit: Doc| decode_hit(hit)->Ok_0))
    }
}

/// The pizzas in the store's answer to a search.
pub open spec fn decode_search(body: Doc) -> Result<Seq<PizzaView>, DeserializationError> {
    match decode_hit_list(body) {
        Err(e) => Err(e),
        Ok(hits) => decode_hits(hits),
    }
}

/// What each pizza of `pizzas` holds, in order.
pub open spec fn pizza_views(pizzas: Seq<Pizza>) -> Seq<PizzaView> {
    pizzas.map_values(|pizza: Pizza| pizza@)
}

/// At most one hit is the first that fails.
proof fn lemma_first_failure_is_unique(hits: Seq<Doc>, k1: int, k2: int)
    requires
        first_failure(hits, k1),
        first_failure(hits, k2),
    ensures
        k1 == k2,
{
    if k1 < k2 {
        assert(decode_hit(hits[k1]) is Ok);
    } else if k2 < k1 {
        assert(decode_hit(hits[k2]) is Ok);
    }
}

/// Reads the identifier that the store gave a document from the store's
/// answer to the insert.
pub fn created_id(body: &Value) -> (read: Result<String, DeserializationError>)
    ensures
        match (read, decode_created(doc_of(*body))) {
            (Ok(string), Ok(id)) => string@ == id,
            (Err(e), Err(expected)) => e == expected,
            _ => false,
        },
{
    read_text(body, "_id", Field::Id)
}

/// Reads the pizza of one search hit.
pub fn pizza_from_hit(hit: &Value) -> (read: Result<Pizza, DeserializationError>)
    ensures
        match (read, decode_hit(doc_of(*hit))) {
            (Ok(pizza), Ok(expected)) => pizza@ == expected,
            (Err(e), Err(expected)) => e == expected,
            _ => false,
        },
{
    match member(hit, "_source") {
        None => Err(DeserializationError::Missing(Field::Source)),
        Some(source) => {
            let pizza_data = PizzaCreate::from_value(source)?;
            let id = read_text(hit, "_id", Field::Id)?;
            Ok(Pizza::new(pizza_data, id))
        },
    }
}

/// Reads the pizzas out of the store's answer to a search, in the order in
/// which the store returned them.
pub fn pizzas_from_search(body: &Value) -> (read: Result<Vec<Pizza>, DeserializationError>)
    ensures
        match (read, decode_search(doc_of(*body))) {
            (Ok(pizzas), Ok(expected)) => pizza_views(pizzas@) == expected,
            (Err(e), Err(expected)) => e == expected,
            _ => false,
        },
{
    let items = match member(body, "hits") {
        None => {
            return Err(DeserializationError::Missing(Field::Hits));
        },
        Some(found) => match member(found, "hits") {
            None => {
                return Err(DeserializationError::Missing(Field::Hits));
            },
            Some(list) => match as_array(list) {
                None => {
                    return Err(DeserializationError::Invalid(Field::Hits));
                },
                Some(items) => items,
            },
        },
    };
    let ghost hits = docs_of(items@);
    let mut pizzas: Vec<Pizza> = Vec::new();
    let mut i: usize = 0;
    while i < items.len()
        invariant
            i <= items.len(),
            decode_hit_list(doc_of(*body)) matches Ok(list) && list == hits,
            hits == docs_of(items@),
            pizzas.len() == i,
            forall|j: int|
                0 <= j < i ==> ((#[trigger] decode_hit(hits[j])) matches Ok(pizza) && pizza
                    == pizzas[j]@),
        decreases items.len() - i,
    {
        match pizza_from_hit(&items[i]) {
            Err(e) => {
                proof {
                    assert(first_failure(hits, i as int));
                    lemma_first_failure_is_unique(
                        hits,
                        i as int,
                        choose|k: int| first_failure(hits, k),
                    );
                }
                return Err(e);
            },
            Ok(pizza) => {
                pizzas.push(pizza);
            },
        }
        i += 1;
    }
    proof {
        assert forall|k: int| !first_failure(hits, k) by {
            if 0 <= k < hits.len() {
                assert(decode_hit(hits[k]) is Ok);
            }
        }
        assert(hits.map_values(|hit: Doc| decode_hit(hit)->Ok_0) =~= pizza_views(pizzas@));
    }
    Ok(pizzas)
}

} // verus!
