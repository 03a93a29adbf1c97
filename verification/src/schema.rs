//! The statements the service issues, as fixed text.
//!
//! On startup the service idempotently creates the keyspace `ks` and the
//! table `ks.salt1 (username ASCII primary key, password ASCII)`, then
//! prepares the lookup and upsert statements for reuse. Each function here
//! pins the exact text of one of those four statements, so every caller is
//! held to the same schema and the same statement shapes.

use vstd::prelude::*;

verus! {

/// Text of the idempotent keyspace creation statement run on every startup.
pub fn create_keyspace_ddl() -> (r: &'static str)
    ensures
        r@ == "CREATE KEYSPACE IF NOT EXISTS ks WITH REPLICATION = {'class' : 'SimpleStrategy', 'replication_factor' : 1}"@,
{
    "CREATE KEYSPACE IF NOT EXISTS ks WITH REPLICATION = {'class' : 'SimpleStrategy', 'replication_factor' : 1}"
}

/// Text of the idempotent table creation statement run on every startup.
pub fn create_table_ddl() -> (r: &'static str)
    ensures
        r@ == "CREATE TABLE IF NOT EXISTS ks.salt1 (username ASCII primary key, password ASCII)"@,
{
    "CREATE TABLE IF NOT EXISTS ks.salt1 (username ASCII primary key, password ASCII)"
}

/// Text of the prepared lookup statement; one positional placeholder, the username.
pub fn lookup_cql() -> (r: &'static str)
    ensures
        r@ == "SELECT username, password FROM ks.salt1 WHERE username = ?"@,
{
    "SELECT username, password FROM ks.salt1 WHERE username = ?"
}

/// Text of the prepared upsert statement; two positional placeholders,
/// username then password. A write with an existing key overwrites the row.
pub fn upsert_cql() -> (r: &'static str)
    ensures
        r@ == "INSERT INTO ks.salt1 (username, password) VALUES (?, ?)"@,
{
    "INSERT INTO ks.salt1 (username, password) VALUES (?, ?)"
}

} // verus!
