//! The record mapping and the request decisions of a small pizza service.
//!
//! The service keeps pizzas in a document store and answers two requests:
//! list every pizza, and create one. This crate holds what the service
//! computes; talking to the store and to HTTP clients is left to the caller.

pub mod facade;
pub mod fields;
pub mod json;
pub mod laws;
pub mod pizza;
pub mod store;
