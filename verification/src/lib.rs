//! A dynamically typed value model for a schema-driven data layer.
//!
//! The heart of the crate is [`Value`], a closed tagged union covering
//! primitives, temporal types, arbitrary-precision decimals, object
//! identifiers, maps with three ordering disciplines, arrays, tuples,
//! ranges, enum choices, regular-expression patterns, files, pipeline
//! shapes and index references.  Around it stand a fallible conversion
//! protocol between values and native Rust shapes, numeric promotion
//! rules for the arithmetic and bitwise operators, cross-kind equality
//! and ordering, a tagged JSON encoding and a canonical literal
//! renderer for diagnostics.

pub mod clone;
pub mod cmp;
pub mod codec;
pub mod convert;
pub mod decimal;
pub mod display;
pub mod error;
pub mod from;
pub mod index;
pub mod json;
pub mod laws;
pub mod num;
pub mod object_id;
pub mod ops;
pub mod strings;
pub mod temporal;
pub mod types;
pub mod value;

pub mod teon;

pub use cmp::cmp_value;
pub use cmp::eq_value;
pub use codec::value_from_json;
pub use convert::conversion_error;
pub use convert::try_into_btree_map;
pub use convert::try_into_hash_map;
pub use convert::try_into_index_map;
pub use convert::try_into_pair;
pub use convert::try_into_str;
pub use convert::try_into_triple;
pub use convert::try_into_vec_str;
pub use convert::FromTeon;
pub use decimal::TeonDecimal;
pub use error::Error;
pub use from::value_from_option;
pub use index::Index;
pub use json::JsonValue;
pub use object_id::ObjectIdValue;
pub use temporal::TeonDate;
pub use temporal::TeonDateTime;
pub use value::Value;
