use pizza_api::fields::{DeserializationError, Field};
use pizza_api::pizza::{Ingredients, Pizza, PizzaCreate};
use pizza_api::store::{
    add_document, created_id, pizza_from_hit, pizzas_from_search, query_all, StoreRequest, CREATED,
};
use serde_json::{Number, Value};

fn parse(text: &str) -> Value {
    serde_json::from_str(text).unwrap()
}

fn pizza(id: &str, name: &str, price: Number, ingredients: &[&str]) -> Pizza {
    Pizza {
        id: id.to_string(),
        name: name.to_string(),
        description: format!("{} pizza", name),
        price,
        ingredients: Ingredients(ingredients.iter().map(|s| s.to_string()).collect()),
    }
}

const TWO_HITS: &str = r#"{
    "took": 3,
    "timed_out": false,
    "hits": {
        "total": {"value": 2, "relation": "eq"},
        "max_score": 1.0,
        "hits": [
            {"_index": "pizzas_dev", "_id": "b2", "_score": 1.0,
             "_source": {"name": "Marinara", "description": "Marinara pizza", "price": 7, "ingredients": ["tomato", "garlic"]}},
            {"_index": "pizzas_dev", "_id": "a1", "_score": 1.0,
             "_source": {"name": "Margherita", "description": "Margherita pizza", "price": 8.5, "ingredients": ["tomato", "mozzarella", "basil"]}}
        ]
    }
}"#;

#[test]
fn created_is_the_status_201() {
    assert_eq!(CREATED, 201);
}

#[test]
fn query_all_matches_every_document_of_the_index() {
    assert_eq!(
        query_all("pizzas_dev"),
        StoreRequest::Search {
            index: "pizzas_dev".to_string(),
            query: parse(r#"{"query":{"match_all":{}}}"#),
        }
    );
    match query_all("other") {
        StoreRequest::Search { index, .. } => assert_eq!(index, "other"),
        StoreRequest::Insert { .. } => panic!("a search was asked for"),
    }
}

#[test]
fn add_document_hands_the_body_to_the_index() {
    let body = parse(r#"{"name":"Margherita","anything":[1,2,{"a":null}]}"#);
    assert_eq!(
        add_document("pizzas_dev", body.clone()),
        StoreRequest::Insert { index: "pizzas_dev".to_string(), document: body }
    );
}

#[test]
fn created_id_is_the_identifier_in_the_answer() {
    let body = parse(
        r#"{"_index":"pizzas_dev","_id":"kT5xYo0BTn-8","_version":1,"result":"created","_seq_no":0}"#,
    );
    assert_eq!(created_id(&body), Ok("kT5xYo0BTn-8".to_string()));
}

#[test]
fn created_id_needs_a_string() {
    assert_eq!(
        created_id(&parse(r#"{"result":"created"}"#)),
        Err(DeserializationError::Missing(Field::Id))
    );
    assert_eq!(
        created_id(&parse(r#"{"_id":42}"#)),
        Err(DeserializationError::Invalid(Field::Id))
    );
    assert_eq!(created_id(&parse("[]")), Err(DeserializationError::Missing(Field::Id)));
}

#[test]
fn pizza_from_hit_joins_the_record_and_the_identifier() {
    let hit = parse(
        r#"{"_index":"pizzas_dev","_id":"a1","_score":1.0,"_source":{"name":"Margherita","description":"Margherita pizza","price":8.5,"ingredients":["tomato","mozzarella","basil"]}}"#,
    );
    assert_eq!(
        pizza_from_hit(&hit),
        Ok(pizza(
            "a1",
            "Margherita",
            Number::from_f64(8.5).unwrap(),
            &["tomato", "mozzarella", "basil"]
        ))
    );
}

#[test]
fn pizza_from_hit_takes_the_identifier_of_the_store() {
    let hit = parse(
        r#"{"_id":"from-the-store","_source":{"id":"from-the-client","name":"Margherita","description":"Margherita pizza","price":8.5,"ingredients":[]}}"#,
    );
    assert_eq!(pizza_from_hit(&hit).unwrap().id, "from-the-store");
}

#[test]
fn pizza_from_hit_reads_the_record_first() {
    assert_eq!(
        pizza_from_hit(&parse(r#"{"_id":"a1"}"#)),
        Err(DeserializationError::Missing(Field::Source))
    );
    assert_eq!(
        pizza_from_hit(&parse(r#"{}"#)),
        Err(DeserializationError::Missing(Field::Source))
    );
    assert_eq!(
        pizza_from_hit(&parse(r#"{"_source":{"name":"n","description":"d","price":"free","ingredients":[]}}"#)),
        Err(DeserializationError::Invalid(Field::Price))
    );
    assert_eq!(
        pizza_from_hit(&parse(r#"{"_id":"a1","_source":null}"#)),
        Err(DeserializationError::Missing(Field::Name))
    );
    assert_eq!(
        pizza_from_hit(&parse(r#"{"_source":{"name":"n","description":"d","price":1,"ingredients":[]}}"#)),
        Err(DeserializationError::Missing(Field::Id))
    );
    assert_eq!(
        pizza_from_hit(&parse(r#"{"_id":1,"_source":{"name":"n","description":"d","price":1,"ingredients":[]}}"#)),
        Err(DeserializationError::Invalid(Field::Id))
    );
}

#[test]
fn pizzas_from_search_keeps_the_order_of_the_hits() {
    assert_eq!(
        pizzas_from_search(&parse(TWO_HITS)),
        Ok(vec![
            pizza("b2", "Marinara", Number::from(7u64), &["tomato", "garlic"]),
            pizza(
                "a1",
                "Margherita",
                Number::from_f64(8.5).unwrap(),
                &["tomato", "mozzarella", "basil"]
            ),
        ])
    );
}

#[test]
fn pizzas_from_search_of_no_hits_is_empty() {
    let body = parse(r#"{"took":1,"hits":{"total":{"value":0,"relation":"eq"},"max_score":null,"hits":[]}}"#);
    assert_eq!(pizzas_from_search(&body), Ok(Vec::new()));
}

#[test]
fn pizzas_from_search_needs_the_list_of_hits() {
    for text in [
        "null",
        "[]",
        r#"{}"#,
        r#"{"error":{"type":"index_not_found_exception"},"status":404}"#,
        r#"{"hits":null}"#,
        r#"{"hits":[]}"#,
        r#"{"hits":{"total":0}}"#,
    ] {
        assert_eq!(
            pizzas_from_search(&parse(text)),
            Err(DeserializationError::Missing(Field::Hits))
        );
    }
    for text in [r#"{"hits":{"hits":null}}"#, r#"{"hits":{"hits":{}}}"#, r#"{"hits":{"hits":"none"}}"#]
    {
        assert_eq!(
            pizzas_from_search(&parse(text)),
            Err(DeserializationError::Invalid(Field::Hits))
        );
    }
}

#[test]
fn pizzas_from_search_reports_the_first_hit_that_fails() {
    let body = parse(
        r#"{"hits":{"hits":[
            {"_id":"a1","_source":{"name":"n","description":"d","price":1,"ingredients":[]}},
            {"_id":"a2","_source":{"name":"n","description":"d","ingredients":[]}},
            {"_id":"a3"},
            {"_id":"a4","_source":{"name":"n","description":"d","price":1,"ingredients":[]}}
        ]}}"#,
    );
    assert_eq!(pizzas_from_search(&body), Err(DeserializationError::Missing(Field::Price)));
    let body = parse(
        r#"{"hits":{"hits":[
            {"_id":"a1","_source":{"name":"n","description":"d","price":1,"ingredients":[]}},
            7
        ]}}"#,
    );
    assert_eq!(pizzas_from_search(&body), Err(DeserializationError::Missing(Field::Source)));
}

#[test]
fn a_stored_record_is_found_again() {
    let data = PizzaCreate {
        name: "Capricciosa".to_string(),
        description: "With everything".to_string(),
        price: Number::from_f64(11.25).unwrap(),
        ingredients: Ingredients(vec!["ham".to_string(), "artichoke".to_string()]),
    };
    let document = match add_document("pizzas_dev", data.to_value()) {
        StoreRequest::Insert { document, .. } => document,
        StoreRequest::Search { .. } => panic!("an insert was asked for"),
    };
    let mut hit = serde_json::Map::new();
    hit.insert("_index".to_string(), Value::from("pizzas_dev"));
    hit.insert("_id".to_string(), Value::from("n3w"));
    hit.insert("_source".to_string(), document);
    assert_eq!(pizza_from_hit(&Value::Object(hit)), Ok(Pizza::new(data, "n3w".to_string())));
}
