//! The server's configuration, read once at process start, and the
//! connection URL composed from it.

use crate::num::{dec_str, u64_to_string};
use vstd::prelude::*;
use vstd::string::*;

verus! {

/// The configuration surface: where the database lives, the credentials,
/// the dangerous-query switch and the row cap.
pub struct Args {
    pub host: String,
    pub port: u16,
    pub username: String,
    pub password: String,
    pub database: String,
    /// Permits non-read-only statements and the insert, update and delete
    /// tools.
    pub allow_dangerous_queries: bool,
    /// How many rows a query result may carry before it is truncated.
    pub max_rows: usize,
}

/// The connection URL composed from the configuration.
pub open spec fn mysql_url(args: Args) -> Seq<char> {
    "mysql://"@ + args.username@ + ":"@ + args.password@ + "@"@ + args.host@ + ":"@ + dec_str(
        args.port as nat,
    ) + "/"@ + args.database@
}

/// Composes the connection URL from the configuration.
pub fn compose_url(args: &Args) -> (r: String)
    ensures
        r@ == mysql_url(*args),
{
    let port = u64_to_string(args.port as u64);
    String::from_str("mysql://").concat(args.username.as_str()).concat(":").concat(
        args.password.as_str(),
    ).concat("@").concat(args.host.as_str()).concat(":").concat(port.as_str()).concat("/").concat(
        args.database.as_str(),
    )
}

} // verus!
