//! The logic of a store that keeps code-index facts in SQLite and vectors in sqlite-vec.
//!
//! The library decides; it never touches a database, a file or the clock. Each operation of the
//! store is a statement to run, a list of commands to run in order, or a decision taken on the
//! rows that came back.

pub mod bindings;
pub mod call_path_laws;
pub mod call_paths;
pub mod column_laws;
pub mod conditions;
pub mod config;
pub mod context;
pub mod coverage;
pub mod decision_laws;
pub mod error;
pub mod facts;
pub mod fault_laws;
pub mod freshness;
pub mod generations;
pub mod health;
pub mod layers;
pub mod lease;
pub mod matching;
pub mod naming;
pub mod numbers;
pub mod outline;
pub mod progress_laws;
pub mod qdrant;
pub mod quality;
pub mod question_laws;
pub mod questions;
pub mod reader_laws;
pub mod recording;
pub mod records;
pub mod repository;
pub mod resolution;
pub mod round_trips;
pub mod rows;
pub mod runs;
pub mod schema;
pub mod schema_laws;
pub mod script_laws;
pub mod search;
pub mod sql;
pub mod statement_laws;
pub mod store;
pub mod summaries;
pub mod summary_laws;
pub mod text;
pub mod transactions;
pub mod value_laws;
pub mod vector;
pub mod watchers;

