use vstd::prelude::*;

verus! {

use crate::text::dec_str;

/// The registry key of a cached pool: `<username>@<db>`. Used for both
/// lookup and insertion, so the low-privilege and the privileged pool of
/// one database occupy distinct entries.
pub open spec fn spec_pool_key(username: Seq<char>, db: Seq<char>) -> Seq<char> {
    username + "@"@ + db
}

/// `postgresql://<username>:<password>@<host>` — the privileged server
/// connection.
pub open spec fn spec_server_url(
    username: Seq<char>,
    password: Seq<char>,
    host: Seq<char>,
) -> Seq<char> {
    "postgresql://"@ + username + ":"@ + password + "@"@ + host
}

/// `postgresql://<username>:<password>@<host>/<db>` — a connection into
/// one database.
pub open spec fn spec_database_url(
    username: Seq<char>,
    password: Seq<char>,
    host: Seq<char>,
    db: Seq<char>,
) -> Seq<char> {
    spec_server_url(username, password, host) + "/"@ + db
}

/// `SET statement_timeout to <ms>` — run once on every fresh pool.
pub open spec fn spec_timeout_stmt(timeout_ms: nat) -> Seq<char> {
    "SET statement_timeout to "@ + dec_str(timeout_ms)
}

/// Builds the registry key of a pool.
pub fn pool_key(username: &str, db: &str) -> (r: String)
    ensures
        r@ == spec_pool_key(username@, db@),
{
    let mut r = String::from_str(username);
    r.append("@");
    r.append(db);
    r
}

/// Builds the privileged server connection string.
pub fn server_url(username: &str, password: &str, host: &str) -> (r: String)
    ensures
        r@ == spec_server_url(username@, password@, host@),
{
    let mut r = String::from_str("postgresql://");
    r.append(username);
    r.append(":");
    r.append(password);
    r.append("@");
    r.append(host);
    r
}

/// Builds the connection string into one database.
pub fn database_url(username: &str, password: &str, host: &str, db: &str) -> (r: String)
    ensures
        r@ == spec_database_url(username@, password@, host@, db@),
{
    let mut r = server_url(username, password, host);
    r.append("/");
    r.append(db);
    r
}

/// Builds the statement-timeout statement applied to a fresh pool.
pub fn statement_timeout_stmt(timeout_ms: u64) -> (r: String)
    ensures
        r@ == spec_timeout_stmt(timeout_ms as nat),
{
    let mut r = String::from_str("SET statement_timeout to ");
    let n = crate::text::u64_to_dec(timeout_ms);
    r.append(n.as_str());
    r
}

} // verus!
