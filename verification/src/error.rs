//! The error taxonomy of the core.
//!
//! Validation failures (`InvalidIdentifier`, `InvalidInput`,
//! `ReadOnlyViolation`) are detected before any database work and never touch
//! a connection. `NotFound` and `NoDatabaseSelected` are detected from query
//! results. `ConnectionError` and `SqlError` carry the driver's message
//! verbatim.

use vstd::prelude::*;
use vstd::string::*;

verus! {

/// Invalid JSON on the transport.
pub const CODE_PARSE_ERROR: i32 = -32700;

/// Unknown method or disallowed tool.
pub const CODE_METHOD_NOT_FOUND: i32 = -32601;

/// Invalid or missing parameters, invalid identifiers or input, or a
/// read-only violation.
pub const CODE_INVALID_PARAMS: i32 = -32602;

/// Internal serialization failure.
pub const CODE_INTERNAL_ERROR: i32 = -32603;

/// Connection could not be established during `initialize`.
pub const CODE_INIT_FAILED: i32 = -32001;

/// A tool call arrived before a successful `initialize`.
pub const CODE_NOT_INITIALIZED: i32 = -32002;

/// A connection could not be acquired for a mutation.
pub const CODE_CONNECTION_ERROR: i32 = -32003;

/// A statement failed at the database.
pub const CODE_SQL_ERROR: i32 = -32004;

/// No database is selected, or a connection could not be acquired for a
/// query.
pub const CODE_NO_DATABASE: i32 = -32005;

/// The database context could not be switched.
pub const CODE_DB_CONTEXT: i32 = -32006;

/// The named table does not exist.
pub const CODE_NOT_FOUND: i32 = -32604;

/// Everything an engine operation can fail with.
#[derive(Debug)]
pub enum DbError {
    InvalidIdentifier(String),
    InvalidInput(String),
    ConnectionError(String),
    SqlError(String),
    NotFound(String),
    NoDatabaseSelected,
    ReadOnlyViolation(String),
}

impl DbError {
    /// The stable numeric code a response carries for this error.
    pub fn code(&self) -> (r: i32)
        ensures
            r == self.spec_code(),
    {
        match self {
            DbError::InvalidIdentifier(_) => CODE_INVALID_PARAMS,
            DbError::InvalidInput(_) => CODE_INVALID_PARAMS,
            DbError::ReadOnlyViolation(_) => CODE_INVALID_PARAMS,
            DbError::ConnectionError(_) => CODE_CONNECTION_ERROR,
            DbError::SqlError(_) => CODE_SQL_ERROR,
            DbError::NoDatabaseSelected => CODE_NO_DATABASE,
            DbError::NotFound(_) => CODE_NOT_FOUND,
        }
    }

    /// The stable numeric code, as a spec-level map.
    pub open spec fn spec_code(&self) -> i32 {
        match self {
            DbError::InvalidIdentifier(_) => CODE_INVALID_PARAMS,
            DbError::InvalidInput(_) => CODE_INVALID_PARAMS,
            DbError::ReadOnlyViolation(_) => CODE_INVALID_PARAMS,
            DbError::ConnectionError(_) => CODE_CONNECTION_ERROR,
            DbError::SqlError(_) => CODE_SQL_ERROR,
            DbError::NoDatabaseSelected => CODE_NO_DATABASE,
            DbError::NotFound(_) => CODE_NOT_FOUND,
        }
    }

    /// The human-readable message of this error.
    pub open spec fn spec_message(&self) -> Seq<char> {
        match self {
            DbError::InvalidIdentifier(n) => "Invalid identifier: "@ + n@,
            DbError::InvalidInput(m) => "Invalid input: "@ + m@,
            DbError::ConnectionError(m) => "Connection error: "@ + m@,
            DbError::SqlError(m) => "SQL error: "@ + m@,
            DbError::NotFound(m) => "Not found: "@ + m@,
            DbError::NoDatabaseSelected => "No database selected"@,
            DbError::ReadOnlyViolation(m) => "Read-only violation: "@ + m@,
        }
    }

    /// Renders the error as text.
    pub fn message(&self) -> (r: String)
        ensures
            r@ == self.spec_message(),
    {
        match self {
            DbError::InvalidIdentifier(n) => String::from_str("Invalid identifier: ").concat(
                n.as_str(),
            ),
            DbError::InvalidInput(m) => String::from_str("Invalid input: ").concat(m.as_str()),
            DbError::ConnectionError(m) => String::from_str("Connection error: ").concat(
                m.as_str(),
            ),
            DbError::SqlError(m) => String::from_str("SQL error: ").concat(m.as_str()),
            DbError::NotFound(m) => String::from_str("Not found: ").concat(m.as_str()),
            DbError::NoDatabaseSelected => String::from_str("No database selected"),
            DbError::ReadOnlyViolation(m) => String::from_str("Read-only violation: ").concat(
                m.as_str(),
            ),
        }
    }
}

} // verus!
