//! A web API over a data lake: SQL selection over a table registered from an
//! object store, download of the listed files as one archive, and the
//! mapping of store failures to HTTP answers.
//!
//! This crate holds the decisions of the service: the SQL it sends, how
//! record batches become rows, what each stage of a request does with the
//! outcome of the previous one, how errors become status codes and bodies,
//! and how archive entries are named. The I/O around it (HTTP serving, the
//! query engine, the object store) lives in the program that uses it.

pub mod data_store;
pub mod error;
pub mod routes;
pub mod utils;
