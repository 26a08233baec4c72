//! Typed building blocks for a streaming-catalog client: query-option
//! serialisation and decoding of tagged search results.

pub mod categories;
pub mod common;
pub mod error;
pub mod media;
pub mod options;
pub mod scan;
pub mod search;
pub mod text;
