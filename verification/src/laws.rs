//! What holds of the mapping between records and documents, and of the
//! replies, whatever the inputs.

use crate::facade::{
    create_reply, list_reply, pizzas_doc, ReplyView, BAD_GATEWAY, GATEWAY_TIMEOUT, NOT_CREATED, OK,
};
use crate::fields::{all_text, texts};
use crate::json::Doc;
use crate::pizza::{texts_doc, PizzaCreateView, PizzaView};
use crate::store::{
    decode_created, decode_hit, decode_hit_list, decode_hits, decode_search, first_failure,
    StoreOutcomeView, CREATED,
};
use vstd::prelude::*;

verus! {

/// The names of the members of a pizza are pairwise different.
proof fn lemma_member_names_differ()
    ensures
        "id"@ != "name"@,
        "id"@ != "description"@,
        "id"@ != "price"@,
        "id"@ != "ingredients"@,
        "name"@ != "description"@,
        "name"@ != "price"@,
        "name"@ != "ingredients"@,
        "description"@ != "price"@,
        "description"@ != "ingredients"@,
        "price"@ != "ingredients"@,
{
    reveal_strlit("id");
    reveal_strlit("name");
    reveal_strlit("description");
    reveal_strlit("price");
    reveal_strlit("ingredients");
    assert("id"@.len() == 2);
    assert("name"@.len() == 4);
    assert("price"@.len() == 5);
    assert("description"@[0] == 'd');
    assert("ingredients"@[0] == 'i');
}

/// A list of strings that is written as a JSON array is read back as the
/// same list.
proof fn lemma_texts_round_trip(list: Seq<Seq<char>>)
    ensures
        texts_doc(list) matches Doc::Array(items) && all_text(items) && texts(items) == list,
{
    let items = list.map_values(|text: Seq<char>| Doc::Text(text));
    assert(texts(items) =~= list);
}

/// Reading the document of a record gives the record back: every field is
/// the same, and the ingredients are in the same order.
pub proof fn lemma_pizza_create_round_trip(data: PizzaCreateView)
    ensures
        PizzaCreateView::decode(data.encode()) matches Ok(read) && read == data,
{
    lemma_member_names_differ();
    lemma_texts_round_trip(data.ingredients);
}

/// Reading the document of a pizza gives the pizza back: every field is the
/// same, and the ingredients are in the same order.
pub proof fn lemma_pizza_round_trip(pizza: PizzaView)
    ensures
        PizzaView::decode(pizza.encode()) matches Ok(read) && read == pizza,
{
    lemma_member_names_differ();
    lemma_texts_round_trip(pizza.ingredients);
}

/// Whether `hit` is the hit that the store returns for the document of
/// `data`, kept under the identifier `id`.
pub open spec fn is_hit_of(hit: Doc, id: Seq<char>, data: PizzaCreateView) -> bool {
    &&& hit.member("_id"@) == Some(Doc::Text(id))
    &&& hit.member("_source"@) == Some(data.encode())
}

/// The hit of a stored record is read as the pizza with the fields of the
/// record and the identifier of the hit.
pub proof fn lemma_hit_of_record(hit: Doc, id: Seq<char>, data: PizzaCreateView)
    requires
        is_hit_of(hit, id, data),
    ensures
        decode_hit(hit) matches Ok(pizza) && pizza == data.with_id(id),
{
    lemma_pizza_create_round_trip(data);
}

/// A pizza that is read from a hit has the identifier that the store gave
/// the document, whatever the document says of an identifier, and the fields
/// of the record in the document.
pub proof fn lemma_identifier_is_the_one_of_the_store(hit: Doc)
    requires
        decode_hit(hit) is Ok,
    ensures
        hit.member("_id"@) == Some(Doc::Text(decode_hit(hit)->Ok_0.id)),
        hit.member("_source"@) matches Some(source) && PizzaCreateView::decode(source) matches Ok(
            data,
        ) && data == decode_hit(hit)->Ok_0.data(),
{
}

/// Where every hit of a list is the hit of a pizza, the list is read as the
/// pizzas of its hits, one for each hit and in the same order.
pub proof fn lemma_hits_in_order(hits: Seq<Doc>)
    requires
        forall|i: int| 0 <= i < hits.len() ==> (#[trigger] decode_hit(hits[i])) is Ok,
    ensures
        decode_hits(hits) matches Ok(pizzas) && {
            &&& pizzas.len() == hits.len()
            &&& forall|i: int|
                0 <= i < hits.len() ==> (#[trigger] decode_hit(hits[i]))->Ok_0 == pizzas[i]
        },
{
    assert forall|k: int| !first_failure(hits, k) by {
        if 0 <= k < hits.len() {
            assert(decode_hit(hits[k]) is Ok);
        }
    }
}

/// A pizza that was created is listed, once and as it was sent.
///
/// A client has sent the record `data`, and the store has created it: it
/// keeps the document of `data` under the identifier `id` and says so in
/// `created`, its answer to the insert. A later search is answered with
/// `found`, in which `hits[k]` is the hit of that document. The store gives
/// every document an identifier of its own, so the other hits are hits of
/// pizzas with other identifiers. Then the reply to the request for all
/// pizzas holds one pizza for each hit, the pizza at `k` has the fields of
/// `data` and the identifier `id`, no other pizza of the reply has that
/// identifier, and the reply to the request to create it held that same
/// pizza.
pub proof fn lemma_created_pizza_is_listed(
    data: PizzaCreateView,
    id: Seq<char>,
    created: Doc,
    found: Doc,
    status: u16,
    hits: Seq<Doc>,
    k: int,
)
    requires
        decode_created(created) matches Ok(given) && given == id,
        decode_hit_list(found) matches Ok(list) && list == hits,
        0 <= k < hits.len(),
        is_hit_of(hits[k], id, data),
        forall|i: int|
            0 <= i < hits.len() && i != k ==> ((#[trigger] decode_hit(hits[i])) matches Ok(other)
                && other.id != id),
    ensures
        decode_search(found) matches Ok(pizzas) && {
            &&& pizzas.len() == hits.len()
            &&& pizzas[k] == data.with_id(id)
            &&& forall|i: int| 0 <= i < pizzas.len() && (#[trigger] pizzas[i]).id == id ==> i == k
            &&& list_reply(StoreOutcomeView::Answered { status, body: Some(found) })
                == ReplyView::json(OK, pizzas_doc(pizzas))
            &&& create_reply(
                data,
                StoreOutcomeView::Answered { status: CREATED, body: Some(created) },
            ) == ReplyView::json(OK, pizzas[k].encode())
        },
{
    lemma_hit_of_record(hits[k], id, data);
    assert forall|i: int| 0 <= i < hits.len() implies (#[trigger] decode_hit(hits[i])) is Ok by {
        if i != k {
        }
    }
    lemma_hits_in_order(hits);
}

/// Every document of a listing is the document of a pizza, and reading it
/// gives the pizza that was listed.
pub proof fn lemma_listing_holds_pizzas(pizzas: Seq<PizzaView>, i: int)
    requires
        0 <= i < pizzas.len(),
    ensures
        pizzas_doc(pizzas) matches Doc::Array(documents) && {
            &&& documents.len() == pizzas.len()
            &&& PizzaView::decode(documents[i]) matches Ok(read) && read == pizzas[i]
        },
{
    lemma_pizza_round_trip(pizzas[i]);
}

/// The reply to a request for all pizzas, where the index holds none, is
/// the empty JSON array with the status [`OK`].
pub proof fn lemma_empty_index_lists_nothing(status: u16, found: Doc)
    requires
        decode_hit_list(found) matches Ok(hits) && hits.len() == 0,
    ensures
        list_reply(StoreOutcomeView::Answered { status, body: Some(found) }) == ReplyView::json(
            OK,
            Doc::Array(Seq::empty()),
        ),
{
    let hits = decode_hit_list(found)->Ok_0;
    lemma_hits_in_order(hits);
    assert(decode_hits(hits)->Ok_0 =~= Seq::<PizzaView>::empty());
    assert(pizzas_doc(Seq::<PizzaView>::empty())->Array_0 =~= Seq::<Doc>::empty());
}

/// Where the store answers an insert with another status than [`CREATED`],
/// the reply has the status [`BAD_GATEWAY`] and holds no pizza, whatever was
/// sent and whatever the body of the store's answer.
pub proof fn lemma_refused_insert_is_bad_gateway(
    data: PizzaCreateView,
    status: u16,
    body: Option<Doc>,
)
    requires
        status != CREATED,
    ensures
        create_reply(data, StoreOutcomeView::Answered { status, body }) == ReplyView::text(
            BAD_GATEWAY,
            NOT_CREATED@,
        ),
{
}

/// A reply to a request for all pizzas holds a JSON array and has the status
/// [`OK`], or it holds a text and has the status [`BAD_GATEWAY`] or
/// [`GATEWAY_TIMEOUT`].
pub proof fn lemma_list_reply_is_an_array_or_a_failure(outcome: StoreOutcomeView)
    ensures
        ({
            let reply = list_reply(outcome);
            ||| reply.status == OK && reply.body is Json && reply.body->Json_0 is Array
            ||| (reply.status == BAD_GATEWAY || reply.status == GATEWAY_TIMEOUT) && reply.body
                is Text
        }),
{
}

/// A reply to a request to create a pizza holds the document of a pizza with
/// the fields that were sent and has the status [`OK`], or it holds a text
/// and has the status [`BAD_GATEWAY`] or [`GATEWAY_TIMEOUT`].
pub proof fn lemma_create_reply_is_the_pizza_or_a_failure(
    data: PizzaCreateView,
    outcome: StoreOutcomeView,
)
    ensures
        ({
            let reply = create_reply(data, outcome);
            ||| reply.status == OK && reply.body is Json && (PizzaView::decode(
                reply.body->Json_0,
            ) matches Ok(pizza) && pizza.data() == data)
            ||| (reply.status == BAD_GATEWAY || reply.status == GATEWAY_TIMEOUT) && reply.body
                is Text
        }),
{
    if create_reply(data, outcome).status == OK {
        let id = decode_created(outcome->Answered_body->Some_0)->Ok_0;
        lemma_pizza_round_trip(data.with_id(id));
    }
}

} // verus!
