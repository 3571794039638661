//! Metadata and catalog resolution for a time-series query server.
//!
//! The crate resolves partially qualified table references against a
//! `(catalog, database)` context, keeps the in-memory registry of databases
//! and table schemas consistent with a storage engine, and hands table
//! sources to a SQL planner.
//!
//! - `reference`: table references and their resolution.
//! - `schema`, `error`: descriptors of databases, tables and columns, and
//!   the errors of the operations.
//! - `engine`, `functions`: what is asked of the storage engine and of the
//!   registry of functions.
//! - `name_map`, `database`, `catalog`: the registry of databases and the
//!   tables of each database.
//! - `model`, `laws`: the registry as contracts see it, and what holds of
//!   its operations taken together.
//! - `meta`, `provider`, `stream`: the facade, the planner's way to tables
//!   and functions, and batches as a stream.

pub mod catalog;
pub mod database;
pub mod engine;
pub mod error;
pub mod functions;
pub mod laws;
pub mod meta;
pub mod model;
pub mod name_map;
pub mod provider;
pub mod reference;
pub mod schema;
pub mod stream;
pub mod text;
