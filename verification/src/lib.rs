//! A lazy, pagination-aware graph-resolution engine over an esports
//! statistics service.
//!
//! The library models the entities of the service as plain data, resolves
//! schema-driven property and edge lookups over them, walks paged listings
//! through an explicit pull-based state machine, and accumulates recoverable
//! failures in a shared error sink so that a query yields partial results
//! instead of aborting.

pub mod adapter;
pub mod edges;
pub mod entrypoints;
pub mod error;
pub mod field_value;
pub mod model;
pub mod pagination;
pub mod properties;
pub mod request;
pub mod strutil;
