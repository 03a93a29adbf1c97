//! The service's observable guarantees, stated over the table model and the
//! route semantics and proved once for all inputs.

use vstd::prelude::*;
use crate::routes::{spec_get_user, spec_joined};

verus! {

/// Looking up a username that storage does not hold answers
/// `"Can't find user"`.
pub proof fn lemma_lookup_absent(m: Map<Seq<char>, Seq<char>>, u: Seq<char>)
    requires
        !m.contains_key(u),
    ensures
        spec_get_user(m, u) == "Can't find user"@,
{
}

/// After an upsert of `(u, p)`, looking up `u` answers the two values
/// joined by a space.
pub proof fn lemma_lookup_after_upsert(m: Map<Seq<char>, Seq<char>>, u: Seq<char>, p: Seq<char>)
    ensures
        spec_get_user(m.insert(u, p), u) == spec_joined(u, p),
{
}

/// Issuing the same upsert twice leaves the table exactly as issuing it
/// once leaves it.
pub proof fn lemma_upsert_idempotent(m: Map<Seq<char>, Seq<char>>, u: Seq<char>, p: Seq<char>)
    ensures
        m.insert(u, p).insert(u, p) == m.insert(u, p),
{
    assert(m.insert(u, p).insert(u, p) =~= m.insert(u, p));
}

/// Joining with a fixed username is injective in the password: equal
/// response bodies mean equal passwords.
pub proof fn lemma_joined_injective(u: Seq<char>, p1: Seq<char>, p2: Seq<char>)
    requires
        spec_joined(u, p1) == spec_joined(u, p2),
    ensures
        p1 == p2,
{
    let a = u + " "@;
    assert(spec_joined(u, p1) == a + p1);
    assert(spec_joined(u, p2) == a + p2);
    assert((a + p1).len() == a.len() + p1.len());
    assert((a + p2).len() == a.len() + p2.len());
    assert(p1.len() == p2.len());
    assert(p1 =~= (a + p1).subrange(a.len() as int, (a + p1).len() as int));
    assert(p2 =~= (a + p2).subrange(a.len() as int, (a + p2).len() as int));
}

/// An upsert of `(u, p2)` overwrites an earlier upsert of `(u, p1)`: a later
/// lookup of `u` answers with `p2`, and never with a different `p1`.
pub proof fn lemma_upsert_overwrites(
    m: Map<Seq<char>, Seq<char>>,
    u: Seq<char>,
    p1: Seq<char>,
    p2: Seq<char>,
)
    ensures
        spec_get_user(m.insert(u, p1).insert(u, p2), u) == spec_joined(u, p2),
        p1 != p2 ==> spec_get_user(m.insert(u, p1).insert(u, p2), u) != spec_joined(u, p1),
{
    lemma_lookup_after_upsert(m.insert(u, p1), u, p2);
    if p1 != p2 {
        if spec_joined(u, p2) == spec_joined(u, p1) {
            lemma_joined_injective(u, p2, p1);
        }
    }
}

} // verus!
