//! The two requests that the service answers.
//!
//! Each request is answered in two steps, with the store in between. The
//! first step says what to ask of the store ([`list_request`],
//! [`create_request`]); the second turns the outcome of that into the reply
//! to the client ([`get_all_pizzas`], [`post_pizza`]). Neither step keeps
//! anything from one request to the next.

use crate::json::{doc_of, docs_of, from_items, Doc};
use crate::pizza::{Pizza, PizzaCreate, PizzaCreateView, PizzaView};
use crate::store::{
    add_document, created_id, decode_created, decode_search, match_all, pizza_views,
    pizzas_from_search, query_all, StoreOutcome, StoreOutcomeView, StoreRequest, StoreRequestView,
    CREATED,
};
use serde_json::Value;
use vstd::prelude::*;

verus! {

/// The index in which the store keeps the pizzas.
pub const INDEX_NAME: &'static str = "pizzas_dev";

/// The status of a reply that carries what was asked for.
pub const OK: u16 = 200;

/// The status of the reply to a request that is not the document of a pizza.
pub const BAD_REQUEST: u16 = 400;

/// The status of the reply when the store refused, or when its answer
/// cannot be read.
pub const BAD_GATEWAY: u16 = 502;

/// The status of the reply when the store could not be reached.
pub const GATEWAY_TIMEOUT: u16 = 504;

/// The text of the reply to a request that is not the document of a pizza.
pub const NOT_A_PIZZA: &'static str = "Can not read the pizza!";

/// The text of the reply when the store refused to create the pizza.
pub const NOT_CREATED: &'static str = "Can not create the pizza!";

/// The text of the reply when the store's answer cannot be read.
pub const NOT_READABLE: &'static str = "Can not read the answer of the store!";

/// The text of the reply when the store could not be reached.
pub const NOT_REACHED: &'static str = "Can not reach the store!";

/// The body of a reply.
#[derive(Debug, PartialEq, Eq)]
pub enum Body {
    /// A JSON document.
    Json(Value),
    /// Plain text.
    Text(String),
}

/// The reply to a client: an HTTP status and a body.
#[derive(Debug, PartialEq, Eq)]
pub struct Reply {
    pub status: u16,
    pub body: Body,
}

/// What a [`Body`] holds.
pub ghost enum BodyView {
    Json(Doc),
    Text(Seq<char>),
}

/// What a [`Reply`] holds.
pub ghost struct ReplyView {
    pub status: u16,
    pub body: BodyView,
}

impl View for Body {
    type V = BodyView;

    open spec fn view(&self) -> BodyView {
        match self {
            Body::Json(value) => BodyView::Json(doc_of(*value)),
            Body::Text(text) => BodyView::Text(text@),
        }
    }
}

impl View for Reply {
    type V = ReplyView;

    open spec fn view(&self) -> ReplyView {
        ReplyView { status: self.status, body: self.body@ }
    }
}

impl ReplyView {
    /// The reply with the status `status` and the JSON document `doc`.
    pub open spec fn json(status: u16, doc: Doc) -> ReplyView {
        ReplyView { status, body: BodyView::Json(doc) }
    }

    /// The reply with the status `status` and the plain text `text`.
    pub open spec fn text(status: u16, text: Seq<char>) -> ReplyView {
        ReplyView { status, body: BodyView::Text(text) }
    }
}

/// The JSON array of the documents of `pizzas`, in order.
pub open spec fn pizzas_doc(pizzas: Seq<PizzaView>) -> Doc {
    Doc::Array(pizzas.map_values(|pizza: PizzaView| pizza.encode()))
}

/// The reply to a request for all pizzas, given how the search ended.
///
/// Every hit of the store's answer becomes a pizza of the reply, in the order
/// of the hits. The status of the store's answer is not looked at.
pub open spec fn list_reply(outcome: StoreOutcomeView) -> ReplyView {
    match outcome {
        StoreOutcomeView::Unreachable => ReplyView::text(GATEWAY_TIMEOUT, NOT_REACHED@),
        StoreOutcomeView::Answered { status, body: None } => ReplyView::text(
            BAD_GATEWAY,
            NOT_READABLE@,
        ),
        StoreOutcomeView::Answered { status, body: Some(doc) } => match decode_search(doc) {
            Ok(pizzas) => ReplyView::json(OK, pizzas_doc(pizzas)),
            Err(_) => ReplyView::text(BAD_GATEWAY, NOT_READABLE@),
        },
    }
}

/// The reply to a request to create the pizza `data`, given how the insert
/// ended.
///
/// Only the status [`CREATED`] counts as success; the body of any other
/// answer is not looked at.
pub open spec fn create_reply(data: PizzaCreateView, outcome: StoreOutcomeView) -> ReplyView {
    match outcome {
        StoreOutcomeView::Unreachable => ReplyView::text(GATEWAY_TIMEOUT, NOT_REACHED@),
        StoreOutcomeView::Answered { status, body } => if status != CREATED {
            ReplyView::text(BAD_GATEWAY, NOT_CREATED@)
        } else {
            match body {
                None => ReplyView::text(BAD_GATEWAY, NOT_READABLE@),
                Some(doc) => match decode_created(doc) {
                    Ok(id) => ReplyView::json(OK, data.with_id(id).encode()),
                    Err(_) => ReplyView::text(BAD_GATEWAY, NOT_READABLE@),
                },
            }
        },
    }
}

impl Reply {
    /// The reply with the status `status` and the JSON document `document`.
    pub fn json(status: u16, document: Value) -> (reply: Reply)
        ensures
            reply.status == status,
            reply.body == Body::Json(document),
            reply@ == ReplyView::json(status, doc_of(document)),
    {
        Reply { status, body: Body::Json(document) }
    }

    /// The reply with the status `status` and the plain text `text`.
    pub fn text(status: u16, text: &str) -> (reply: Reply)
        ensures
            reply@ == ReplyView::text(status, text@),
    {
        Reply { status, body: Body::Text(text.to_owned()) }
    }
}

/// The JSON array of `pizzas`, in order.
pub fn pizzas_to_value(pizzas: &Vec<Pizza>) -> (value: Value)
    ensures
        doc_of(value) == pizzas_doc(pizza_views(pizzas@)),
{
    let mut items: Vec<Value> = Vec::new();
    let mut i: usize = 0;
    while i < pizzas.len()
        invariant
            i <= pizzas.len(),
            items.len() == i,
            forall|j: int| 0 <= j < i ==> doc_of(#[trigger] items[j]) == pizzas[j]@.encode(),
        decreases pizzas.len() - i,
    {
        items.push(pizzas[i].to_value());
        i += 1;
    }
    assert(docs_of(items@) =~= pizza_views(pizzas@).map_values(
        |pizza: PizzaView| pizza.encode(),
    ));
    from_items(items)
}

/// What to ask of the store for a request for all pizzas: every document of
/// the index [`INDEX_NAME`].
pub fn list_request() -> (request: StoreRequest)
    ensures
        request@ == (StoreRequestView::Search { index: INDEX_NAME@, query: match_all() }),
{
    query_all(INDEX_NAME)
}

/// The reply to a request for all pizzas, once the search has ended with
/// `outcome`.
pub fn get_all_pizzas(outcome: &StoreOutcome) -> (reply: Reply)
    ensures
        reply@ == list_reply(outcome@),
{
    match outcome {
        StoreOutcome::Unreachable => Reply::text(GATEWAY_TIMEOUT, NOT_REACHED),
        StoreOutcome::Answered { status: _, body: None } => Reply::text(BAD_GATEWAY, NOT_READABLE),
        StoreOutcome::Answered { status: _, body: Some(body) } => match pizzas_from_search(body) {
            Ok(pizzas) => Reply::json(OK, pizzas_to_value(&pizzas)),
            Err(_) => Reply::text(BAD_GATEWAY, NOT_READABLE),
        },
    }
}

/// Reads the pizza that a client asks to have created. Where `payload` is
/// not the document of a pizza, the error is the reply to the client.
pub fn read_payload(payload: &Value) -> (read: Result<PizzaCreate, Reply>)
    ensures
        match (read, PizzaCreateView::decode(doc_of(*payload))) {
            (Ok(pizza_data), Ok(data)) => pizza_data@ == data,
            (Err(reply), Err(_)) => reply@ == ReplyView::text(BAD_REQUEST, NOT_A_PIZZA@),
            _ => false,
        },
{
    match PizzaCreate::from_value(payload) {
        Ok(pizza_data) => Ok(pizza_data),
        Err(_) => Err(Reply::text(BAD_REQUEST, NOT_A_PIZZA)),
    }
}

/// What to ask of the store for a request to create `pizza_data`: to keep
/// the document of the record in the index [`INDEX_NAME`].
pub fn create_request(pizza_data: &PizzaCreate) -> (request: StoreRequest)
    ensures
        request@ == (StoreRequestView::Insert {
            index: INDEX_NAME@,
            document: pizza_data@.encode(),
        }),
{
    add_document(INDEX_NAME, pizza_data.to_value())
}

/// The reply to a request to create `pizza_data`, once the insert has ended
/// with `outcome`.
pub fn post_pizza(pizza_data: PizzaCreate, outcome: &StoreOutcome) -> (reply: Reply)
    ensures
        reply@ == create_reply(pizza_data@, outcome@),
        outcome matches StoreOutcome::Answered { status, .. } && status != CREATED ==> reply@
            == ReplyView::text(BAD_GATEWAY, NOT_CREATED@),
{
    match outcome {
        StoreOutcome::Unreachable => Reply::text(GATEWAY_TIMEOUT, NOT_REACHED),
        StoreOutcome::Answered { status, body } => {
            if *status != CREATED {
                return Reply::text(BAD_GATEWAY, NOT_CREATED);
            }
            match body {
                None => Reply::text(BAD_GATEWAY, NOT_READABLE),
                Some(body) => match created_id(body) {
                    Ok(id) => Reply::json(OK, Pizza::new(pizza_data, id).to_value()),
                    Err(_) => Reply::text(BAD_GATEWAY, NOT_READABLE),
                },
            }
        },
    }
}

} // verus!
