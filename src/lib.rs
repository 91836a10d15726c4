//! A gateway library that turns namespace-qualified document requests into
//! calls against a document store, with uniform error mapping.

pub mod config;
pub mod error;
pub mod handlers;
pub mod models;
pub mod state;
pub mod store;
pub mod text;
