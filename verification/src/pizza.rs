//! Pizza records and their JSON documents.
//!
//! A [`PizzaCreate`] is what a client sends to have a pizza created. A
//! [`Pizza`] is the same record with the identifier that the store gave it.
//! Both are written as JSON objects with one member for each field.

use crate::fields::{
    number_member, read_number, read_text, read_texts, text_member, texts_member, views,
    DeserializationError, Field,
};
use crate::json::{doc_of, docs_of, empty_object, from_items, from_number, from_text, set_member, Doc};
use serde_json::{Number, Value};
use vstd::prelude::*;

verus! {

/// The ingredients of a pizza, in the order in which they were given.
#[derive(Clone, Debug, PartialEq, Eq)]
pub struct Ingredients(pub Vec<String>);

/// A pizza that has no identifier yet.
#[derive(Clone, Debug, PartialEq, Eq)]
pub struct PizzaCreate {
    pub name: String,
    pub description: String,
    /// The price, as the JSON number that it was given as.
    pub price: Number,
    pub ingredients: Ingredients,
}

/// A pizza of the store.
#[derive(Clone, Debug, PartialEq, Eq)]
pub struct Pizza {
    /// The identifier that the store gave the pizza.
    pub id: String,
    pub name: String,
    pub description: String,
    /// The price, as the JSON number that it was given as.
    pub price: Number,
    pub ingredients: Ingredients,
}

/// What a [`PizzaCreate`] holds.
pub ghost struct PizzaCreateView {
    pub name: Seq<char>,
    pub description: Seq<char>,
    pub price: Number,
    pub ingredients: Seq<Seq<char>>,
}

/// What a [`Pizza`] holds.
pub ghost struct PizzaView {
    pub id: Seq<char>,
    pub name: Seq<char>,
    pub description: Seq<char>,
    pub price: Number,
    pub ingredients: Seq<Seq<char>>,
}

impl View for Ingredients {
    type V = Seq<Seq<char>>;

    open spec fn view(&self) -> Seq<Seq<char>> {
        views(self.0@)
    }
}

impl View for PizzaCreate {
    type V = PizzaCreateView;

    open spec fn view(&self) -> PizzaCreateView {
        PizzaCreateView {
            name: self.name@,
            description: self.description@,
            price: self.price,
            ingredients: self.ingredients@,
        }
    }
}

impl View for Pizza {
    type V = PizzaView;

    open spec fn view(&self) -> PizzaView {
        PizzaView {
            id: self.id@,
            name: self.name@,
            description: self.description@,
            price: self.price,
            ingredients: self.ingredients@,
        }
    }
}

/// The JSON array of the strings `list`, in order.
pub open spec fn texts_doc(list: Seq<Seq<char>>) -> Doc {
    Doc::Array(list.map_values(|text: Seq<char>| Doc::Text(text)))
}

impl PizzaCreateView {
    /// The record with the identifier `id`.
    pub open spec fn with_id(self, id: Seq<char>) -> PizzaView {
        PizzaView {
            id,
            name: self.name,
            description: self.description,
            price: self.price,
            ingredients: self.ingredients,
        }
    }

    /// The JSON document of the record: an object with the members `name`,
    /// `description`, `price` and `ingredients`.
    pub open spec fn encode(self) -> Doc {
        Doc::Object(
            map![
                "name"@ => Doc::Text(self.name),
                "description"@ => Doc::Text(self.description),
                "price"@ => Doc::Number(self.price),
                "ingredients"@ => texts_doc(self.ingredients),
            ],
        )
    }

    /// The record that `doc` is the document of.
    ///
    /// `doc` has to have a string `name`, a string `description`, a number
    /// `price` and an array of strings `ingredients`; members beyond these
    /// are ignored. Where it does not, the error names the first of the four,
    /// in this order, that is missing or of another type.
    pub open spec fn decode(doc: Doc) -> Result<PizzaCreateView, DeserializationError> {
        let name = text_member(doc, "name"@, Field::Name);
        let description = text_member(doc, "description"@, Field::Description);
        let price = number_member(doc, "price"@, Field::Price);
        let ingredients = texts_member(doc, "ingredients"@, Field::Ingredients);
        if name is Err {
            Err(name->Err_0)
        } else if description is Err {
            Err(description->Err_0)
        } else if price is Err {
            Err(price->Err_0)
        } else if ingredients is Err {
            Err(ingredients->Err_0)
        } else {
            Ok(
                PizzaCreateView {
                    name: name->Ok_0,
                    description: description->Ok_0,
                    price: price->Ok_0,
                    ingredients: ingredients->Ok_0,
                },
            )
        }
    }
}

impl PizzaView {
    /// The record without its identifier.
    pub open spec fn data(self) -> PizzaCreateView {
        PizzaCreateView {
            name: self.name,
            description: self.description,
            price: self.price,
            ingredients: self.ingredients,
        }
    }

    /// The JSON document of the record: an object with the members `id`,
    /// `name`, `description`, `price` and `ingredients`.
    pub open spec fn encode(self) -> Doc {
        Doc::Object(
            map![
                "id"@ => Doc::Text(self.id),
                "name"@ => Doc::Text(self.name),
                "description"@ => Doc::Text(self.description),
                "price"@ => Doc::Number(self.price),
                "ingredients"@ => texts_doc(self.ingredients),
            ],
        )
    }

    /// The record that `doc` is the document of: a string `id`, and then the
    /// members of a [`PizzaCreateView`].
    pub open spec fn decode(doc: Doc) -> Result<PizzaView, DeserializationError> {
        let id = text_member(doc, "id"@, Field::Id);
        let data = PizzaCreateView::decode(doc);
        if id is Err {
            Err(id->Err_0)
        } else if data is Err {
            Err(data->Err_0)
        } else {
            Ok(data->Ok_0.with_id(id->Ok_0))
        }
    }
}

impl Ingredients {
    /// The JSON array of the ingredients.
    pub fn to_value(&self) -> (value: Value)
        ensures
            doc_of(value) == texts_doc(self@),
    {
        let mut items: Vec<Value> = Vec::new();
        let mut i: usize = 0;
        while i < self.0.len()
            invariant
                i <= self.0.len(),
                items.len() == i,
                forall|j: int| 0 <= j < i ==> doc_of(#[trigger] items[j]) == Doc::Text(self.0[j]@),
            decreases self.0.len() - i,
        {
            items.push(from_text(self.0[i].as_str()));
            i += 1;
        }
        assert(docs_of(items@) =~= self@.map_values(|text: Seq<char>| Doc::Text(text)));
        from_items(items)
    }
}

impl PizzaCreate {
    /// Reads a record from its JSON document.
    pub fn from_value(value: &Value) -> (read: Result<PizzaCreate, DeserializationError>)
        ensures
            match (read, PizzaCreateView::decode(doc_of(*value))) {
                (Ok(pizza_data), Ok(data)) => pizza_data@ == data,
                (Err(e), Err(expected)) => e == expected,
                _ => false,
            },
    {
        let name = read_text(value, "name", Field::Name)?;
        let description = read_text(value, "description", Field::Description)?;
        let price = read_number(value, "price", Field::Price)?;
        let ingredients = read_texts(value, "ingredients", Field::Ingredients)?;
        Ok(PizzaCreate { name, description, price, ingredients: Ingredients(ingredients) })
    }

    /// The JSON document of the record.
    pub fn to_value(&self) -> (value: Value)
        ensures
            doc_of(value) == self@.encode(),
    {
        let mut object = empty_object();
        set_member(&mut object, "name", from_text(self.name.as_str()));
        set_member(&mut object, "description", from_text(self.description.as_str()));
        set_member(&mut object, "price", from_number(self.price.clone()));
        set_member(&mut object, "ingredients", self.ingredients.to_value());
        object
    }
}

impl Pizza {
    /// The pizza that the store keeps under `id` for the record `pizza_data`.
    pub fn new(pizza_data: PizzaCreate, id: String) -> (pizza: Pizza)
        ensures
            pizza.id == id,
            pizza.name == pizza_data.name,
            pizza.description == pizza_data.description,
            pizza.price == pizza_data.price,
            pizza.ingredients == pizza_data.ingredients,
            pizza@ == pizza_data@.with_id(id@),
    {
        Pizza {
            id,
            name: pizza_data.name,
            description: pizza_data.description,
            price: pizza_data.price,
            ingredients: pizza_data.ingredients,
        }
    }

    /// Reads a pizza from its JSON document.
    pub fn from_value(value: &Value) -> (read: Result<Pizza, DeserializationError>)
        ensures
            match (read, PizzaView::decode(doc_of(*value))) {
                (Ok(pizza), Ok(expected)) => pizza@ == expected,
                (Err(e), Err(expected)) => e == expected,
                _ => false,
            },
    {
        let id = read_text(value, "id", Field::Id)?;
        let pizza_data = PizzaCreate::from_value(value)?;
        Ok(Pizza::new(pizza_data, id))
    }

    /// The JSON document of the pizza.
    pub fn to_value(&self) -> (value: Value)
        ensures
            doc_of(value) == self@.encode(),
    {
        let mut object = empty_object();
        set_member(&mut object, "id", from_text(self.id.as_str()));
        set_member(&mut object, "name", from_text(self.name.as_str()));
        set_member(&mut object, "description", from_text(self.description.as_str()));
        set_member(&mut object, "price", from_number(self.price.clone()));
        set_member(&mut object, "ingredients", self.ingredients.to_value());
        object
    }
}

} // verus!
