//! Execution and type core of an embeddable columnar database engine.
//!
//! The crate has three parts: the symbolic type system ([`types::Type`] and
//! its per-variant metadata), the runtime value model ([`value::Value`] and
//! the variable-length buffer descriptor [`value::RawData`]), and the
//! pull-based operation/cursor protocol ([`operation::Operation`],
//! [`operation::Cursor`]) that materializes query results lazily, chunk by
//! chunk.

pub mod error;
pub mod operation;
pub mod schema;
pub mod types;
pub mod value;
