//! A verified core for a MySQL-backed JSON-RPC tool server.
//!
//! The library holds the request router, the identifier and query safety
//! gates, the SQL statement builders, the read-only query protocol and the
//! column-type coercion table, each with a contract. The surrounding
//! process (transport framing, the database driver, logging) lives outside
//! the library and drives it through plain values.

pub mod coerce;
pub mod config;
pub mod error;
pub mod gate;
pub mod ident;
pub mod json;
pub mod mutate;
pub mod num;
pub mod query;
pub mod router;
pub mod rpc;
pub mod schema;
pub mod session;
pub mod sql;
pub mod strutil;
