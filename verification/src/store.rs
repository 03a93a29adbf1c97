//! The model of the credential table.
//!
//! The service keeps its records in a database table keyed by username, with
//! at most one row per username: a later write under the same key replaces
//! the earlier row. `Store` is that table as the service relies on it: a
//! sequence of records with pairwise-distinct usernames, seen abstractly as a
//! map from username to password. `execute_lookup` and `execute_upsert` give
//! the semantics of the two parameterized statements the service prepares.

use vstd::prelude::*;
use vstd::pervasive::VecAdditionalExecFns;

verus! {

/// One stored record: a username and the password stored under it.
pub struct Credential {
    pub username: String,
    pub password: String,
}

/// The abstract content of a sequence of records: a map from username to
/// password in which a later record wins over an earlier one with the same
/// username.
pub open spec fn table_of(s: Seq<Credential>) -> Map<Seq<char>, Seq<char>>
    decreases s.len(),
{
    if s.len() == 0 {
        Map::empty()
    } else {
        table_of(s.drop_last()).insert(s.last().username@, s.last().password@)
    }
}

/// No two records share a username: the table's primary-key invariant.
pub open spec fn distinct_usernames(s: Seq<Credential>) -> bool {
    forall|i: int, j: int| 0 <= i < j < s.len() ==> s[i].username@ != s[j].username@
}

proof fn lemma_table_of_absent(s: Seq<Credential>, u: Seq<char>)
    requires
        forall|i: int| 0 <= i < s.len() ==> s[i].username@ != u,
    ensures
        !table_of(s).contains_key(u),
    decreases s.len(),
{
    if s.len() > 0 {
        assert forall|i: int| 0 <= i < s.drop_last().len() implies s.drop_last()[i].username@
            != u by {
            assert(s.drop_last()[i] == s[i]);
        }
        lemma_table_of_absent(s.drop_last(), u);
        assert(s.last() == s[s.len() - 1]);
    }
}

proof fn lemma_table_of_present(s: Seq<Credential>, i: int)
    requires
        distinct_usernames(s),
        0 <= i < s.len(),
    ensures
        table_of(s).contains_key(s[i].username@),
        table_of(s)[s[i].username@] == s[i].password@,
    decreases s.len(),
{
    assert(s.last() == s[s.len() - 1]);
    if i < s.len() - 1 {
        assert forall|x: int, y: int|
            0 <= x < y < s.drop_last().len() implies s.drop_last()[x].username@
            != s.drop_last()[y].username@ by {
            assert(s.drop_last()[x] == s[x]);
            assert(s.drop_last()[y] == s[y]);
        }
        assert(s.drop_last()[i] == s[i]);
        lemma_table_of_present(s.drop_last(), i);
        assert(s[i].username@ != s[s.len() - 1].username@);
    }
}

proof fn lemma_table_of_update(s: Seq<Credential>, i: int, c: Credential)
    requires
        distinct_usernames(s),
        0 <= i < s.len(),
        c.username@ == s[i].username@,
    ensures
        table_of(s.update(i, c)) == table_of(s).insert(c.username@, c.password@),
    decreases s.len(),
{
    let t = s.update(i, c);
    assert(s.last() == s[s.len() - 1]);
    assert(t.last() == t[s.len() - 1]);
    if i == s.len() - 1 {
        assert(t.drop_last() =~= s.drop_last());
        assert(t.last() == c);
        assert(table_of(t) == table_of(s.drop_last()).insert(c.username@, c.password@));
        assert(table_of(s.drop_last()).insert(c.username@, c.password@) =~= table_of(
            s,
        ).insert(c.username@, c.password@));
    } else {
        assert forall|x: int, y: int|
            0 <= x < y < s.drop_last().len() implies s.drop_last()[x].username@
            != s.drop_last()[y].username@ by {
            assert(s.drop_last()[x] == s[x]);
            assert(s.drop_last()[y] == s[y]);
        }
        assert(s.drop_last()[i] == s[i]);
        lemma_table_of_update(s.drop_last(), i, c);
        assert(t.drop_last() =~= s.drop_last().update(i, c));
        assert(t.last() == s.last());
        assert(table_of(t) == table_of(s.drop_last()).insert(c.username@, c.password@).insert(
            s.last().username@,
            s.last().password@,
        ));
        assert(c.username@ != s[s.len() - 1].username@);
        assert(table_of(s.drop_last()).insert(c.username@, c.password@).insert(
            s.last().username@,
            s.last().password@,
        ) =~= table_of(s).insert(c.username@, c.password@));
    }
}

/// The credential table, keyed by username, one record per username.
pub struct Store {
    records: Vec<Credential>,
}

impl View for Store {
    type V = Map<Seq<char>, Seq<char>>;

    closed spec fn view(&self) -> Map<Seq<char>, Seq<char>> {
        table_of(self.records@)
    }
}

impl Store {
    /// The table's invariant: at most one record per username.
    pub closed spec fn wf(&self) -> bool {
        distinct_usernames(self.records@)
    }

    /// An empty table, as the schema initializer first creates it.
    pub fn new() -> (s: Store)
        ensures
            s.wf(),
            s@ == Map::<Seq<char>, Seq<char>>::empty(),
    {
        Store { records: Vec::new() }
    }

    /// The lookup statement: zero-or-one rows, the row stored under the
    /// given username if there is one.
    pub fn execute_lookup(&self, username: &String) -> (rows: Vec<Credential>)
        requires
            self.wf(),
        ensures
            rows@.len() <= 1,
            self@.contains_key(username@) ==> rows@.len() == 1 && rows@[0].username@ == username@
                && rows@[0].password@ == self@[username@],
            !self@.contains_key(username@) ==> rows@.len() == 0,
    {
        let n = self.records.len();
        let mut i: usize = 0;
        while i < n
            invariant
                self.wf(),
                n == self.records.len(),
                i <= n,
                forall|j: int| 0 <= j < i ==> self.records@[j].username@ != username@,
            decreases n - i,
        {
            if self.records[i].username.eq(username) {
                proof {
                    lemma_table_of_present(self.records@, i as int);
                }
                let mut rows: Vec<Credential> = Vec::new();
                rows.push(
                    Credential {
                        username: self.records[i].username.clone(),
                        password: self.records[i].password.clone(),
                    },
                );
                return rows;
            }
            i += 1;
        }
        proof {
            lemma_table_of_absent(self.records@, username@);
        }
        Vec::new()
    }

    /// The upsert statement: insert the record, or overwrite the record
    /// already stored under the same username.
    pub fn execute_upsert(&mut self, username: String, password: String)
        requires
            old(self).wf(),
        ensures
            final(self).wf(),
            final(self)@ == old(self)@.insert(username@, password@),
    {
        let n = self.records.len();
        let mut i: usize = 0;
        while i < n
            invariant
                self.wf(),
                *self == *old(self),
                n == self.records.len(),
                i <= n,
                forall|j: int| 0 <= j < i ==> self.records@[j].username@ != username@,
            decreases n - i,
        {
            if self.records[i].username.eq(&username) {
                let ghost prev = self.records@;
                let c = Credential { username, password };
                let ghost gc = c;
                self.records.set(i, c);
                proof {
                    lemma_table_of_update(prev, i as int, gc);
                    assert forall|x: int, y: int|
                        0 <= x < y < self.records@.len() implies self.records@[x].username@
                        != self.records@[y].username@ by {
                        assert(prev[x].username@ != prev[y].username@);
                    }
                }
                return;
            }
            i += 1;
        }
        let ghost prev = self.records@;
        let c = Credential { username, password };
        let ghost gc = c;
        self.records.push(c);
        proof {
            lemma_table_of_absent(prev, gc.username@);
            assert(self.records@.drop_last() =~= prev);
            assert(self.records@.last() == gc);
            assert(table_of(self.records@) == table_of(prev).insert(gc.username@, gc.password@));
            assert forall|x: int, y: int|
                0 <= x < y < self.records@.len() implies self.records@[x].username@
                != self.records@[y].username@ by {
                if y < prev.len() {
                    assert(prev[x].username@ != prev[y].username@);
                } else {
                    assert(prev[x].username@ != gc.username@);
                }
            }
        }
    }
}

} // verus!
