//! The decision logic of the three routes.
//!
//! Each handler turns one event — the outcome of a statement execution —
//! into the text of the response body. The functions here are total over
//! those events; executing the statement, and propagating an execution or
//! row-decode failure as a request-level error, is the caller's part.

use vstd::prelude::*;
use vstd::string::StringExecFns;
use crate::store::{Credential, Store};

verus! {

/// The outcome of executing the lookup statement, as the handler sees it.
pub enum LookupEvent {
    /// Execution succeeded but the result carried no row set at all.
    NoRowSet,
    /// The decoded rows of the result set, possibly empty.
    Rows(Vec<Credential>),
}

/// A username and password joined by a single space: the body of a
/// successful lookup response.
pub open spec fn spec_joined(u: Seq<char>, p: Seq<char>) -> Seq<char> {
    u + " "@ + p
}

/// The body of the lookup response for each outcome: the first row's
/// username and password joined by a space; `"Can't find user"` for an empty
/// row set; `"Something went wrong"` when no row set came back at all. Rows
/// beyond the first are ignored.
pub open spec fn spec_lookup_response(ev: LookupEvent) -> Seq<char> {
    match ev {
        LookupEvent::NoRowSet => "Something went wrong"@,
        LookupEvent::Rows(rows) => if rows@.len() == 0 {
            "Can't find user"@
        } else {
            spec_joined(rows@[0].username@, rows@[0].password@)
        },
    }
}

/// The body of the lookup response over the table itself: the stored pair
/// joined by a space when the username has a record, `"Can't find user"`
/// when it has none.
pub open spec fn spec_get_user(m: Map<Seq<char>, Seq<char>>, u: Seq<char>) -> Seq<char> {
    if m.contains_key(u) {
        spec_joined(u, m[u])
    } else {
        "Can't find user"@
    }
}

/// The two values joined by a single space.
pub fn join_username_password(username: &String, password: &String) -> (r: String)
    ensures
        r@ == spec_joined(username@, password@),
{
    let mut r = username.clone();
    r.append(" ");
    r.append(password.as_str());
    r
}

/// Health route: a fixed body, whatever the state of the database.
pub fn health_response() -> (r: &'static str)
    ensures
        r@ == "Hi"@,
{
    "Hi"
}

/// Lookup route: render the response body for the given execution outcome.
pub fn lookup_response(ev: &LookupEvent) -> (r: String)
    ensures
        r@ == spec_lookup_response(*ev),
{
    match ev {
        LookupEvent::NoRowSet => String::from_str("Something went wrong"),
        LookupEvent::Rows(rows) => {
            if rows.len() == 0 {
                String::from_str("Can't find user")
            } else {
                join_username_password(&rows[0].username, &rows[0].password)
            }
        },
    }
}

/// Upsert route: `"User Added"` when the statement succeeded, else
/// `"Something went wrong"`. The failure is swallowed, not surfaced as a
/// request-level error.
pub fn upsert_response(succeeded: bool) -> (r: &'static str)
    ensures
        succeeded ==> r@ == "User Added"@,
        !succeeded ==> r@ == "Something went wrong"@,
{
    if succeeded {
        "User Added"
    } else {
        "Something went wrong"
    }
}

/// The whole lookup route against the table model: execute the lookup
/// statement and render its rows.
pub fn get_user(store: &Store, username: &String) -> (r: String)
    requires
        store.wf(),
    ensures
        r@ == spec_get_user(store@, username@),
{
    let rows = store.execute_lookup(username);
    lookup_response(&LookupEvent::Rows(rows))
}

/// The whole upsert route against the table model: execute the upsert
/// statement, which cannot fail on the model, and render its body.
pub fn put_user(store: &mut Store, username: String, password: String) -> (r: String)
    requires
        old(store).wf(),
    ensures
        final(store).wf(),
        final(store)@ == old(store)@.insert(username@, password@),
        r@ == "User Added"@,
{
    store.execute_upsert(username, password);
    String::from_str(upsert_response(true))
}

} // verus!
