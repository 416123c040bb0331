//! A verified orchestration harness for a SQL plan round-trip benchmark: it
//! validates query indices, resolves the query corpus layout, models dataset
//! registration, drives the per-query round trip from SQL text to a logical
//! plan and back, and formats the report that accompanies each query.

pub mod corpus;
pub mod engine;
pub mod errors;
pub mod machine;
pub mod numfmt;
pub mod report;
pub mod tables;
