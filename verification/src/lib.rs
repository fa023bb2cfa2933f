//! A structured, serializable query over JSON documents, with an in-memory
//! matcher and a compiler to parameterized SQL.

pub mod agreement;
pub mod builder;
pub mod json;
pub mod matcher;
pub mod numbering;
pub mod query;
pub mod sql;
pub mod store;
pub mod text;
pub mod wire;
