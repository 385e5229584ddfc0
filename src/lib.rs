//! Turns a JSON schema of named, typed data generators into JSON data.
//!
//! A schema node is compiled once into a generator tree, which is then
//! evaluated as often as needed; every evaluation draws its leaves afresh from
//! the `fake` crate.

pub mod json;
pub mod lang;
pub mod order;
pub mod error;
pub mod provider;
pub mod generator;
pub mod fake_type;
pub mod schema;
pub mod element;
pub mod laws;
pub mod definition;
pub mod faker_type;
