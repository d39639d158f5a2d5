//! Application-state engine of a terminal browser for Iceberg catalogs: the
//! navigation reducer, the single-writer state store and the decisions of the
//! catalog fetch orchestrator, each with its contract.
pub mod catalog_types;
pub mod index_map;
pub mod keyed;
pub mod number;
pub mod text;
pub mod config;
pub mod message;
pub mod state;
pub mod reducer;
pub mod store;
pub mod orchestrator;
pub mod laws;
pub mod keys;
pub mod view_model;
