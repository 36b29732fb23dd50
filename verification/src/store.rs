//! The user store: persisted records keyed by a unique, immutable identifier.
//!
//! The store is create-only in this scope: a first successful login inserts a
//! record, later operations only read. Its standing invariant is that stored
//! identifiers are pairwise distinct, which the insert path preserves by
//! refusing a duplicate identifier as a constraint violation.

use vstd::prelude::*;

use crate::auth::BackendError;
use crate::user::{NewUser, User, UserView};

verus! {

/// Whether some record in `users` carries the identifier `id`.
pub open spec fn has_id(users: Seq<UserView>, id: Seq<char>) -> bool {
    exists|i: int| 0 <= i < users.len() && users[i].id == id
}

/// Pairwise distinct identifiers: the store's standing invariant.
pub open spec fn ids_unique(users: Seq<UserView>) -> bool {
    forall|i: int, j: int| 0 <= i < j < users.len() ==> users[i].id != users[j].id
}

/// The first record carrying `id`, if any.
pub open spec fn find_user(users: Seq<UserView>, id: Seq<char>) -> Option<UserView>
    decreases users.len(),
{
    if users.len() == 0 {
        Option::None
    } else if users[0].id == id {
        Option::Some(users[0])
    } else {
        find_user(users.drop_first(), id)
    }
}

/// A record is found under `id` exactly when some record carries `id`.
pub proof fn lemma_find_user_has_id(users: Seq<UserView>, id: Seq<char>)
    ensures
        find_user(users, id) is Some <==> has_id(users, id),
    decreases users.len(),
{
    if users.len() == 0 {
    } else if users[0].id == id {
        assert(has_id(users, id));
    } else {
        lemma_find_user_has_id(users.drop_first(), id);
        if has_id(users, id) {
            let i = choose|i: int| 0 <= i < users.len() && users[i].id == id;
            assert(users.drop_first()[i - 1] == users[i]);
            assert(has_id(users.drop_first(), id));
        }
        if has_id(users.drop_first(), id) {
            let i = choose|i: int|
                0 <= i < users.drop_first().len() && users.drop_first()[i].id == id;
            assert(users[i + 1] == users.drop_first()[i]);
            assert(has_id(users, id));
        }
    }
}

/// If `users[i]` is the first record carrying `id`, the search returns it.
pub proof fn lemma_find_user_at(users: Seq<UserView>, id: Seq<char>, i: int)
    requires
        0 <= i < users.len(),
        users[i].id == id,
        forall|k: int| 0 <= k < i ==> users[k].id != id,
    ensures
        find_user(users, id) == Option::Some(users[i]),
    decreases users.len(),
{
    if i > 0 {
        assert(users[0].id != id);
        assert forall|k: int| 0 <= k < i - 1 implies users.drop_first()[k].id != id by {
            assert(users.drop_first()[k] == users[k + 1]);
        }
        assert(users.drop_first()[i - 1] == users[i]);
        lemma_find_user_at(users.drop_first(), id, i - 1);
    }
}

/// Appending a record under a fresh identifier keeps identifiers distinct.
pub proof fn lemma_push_fresh_keeps_unique(users: Seq<UserView>, u: UserView)
    requires
        ids_unique(users),
        !has_id(users, u.id),
    ensures
        ids_unique(users.push(u)),
{
    assert forall|i: int, j: int|
        0 <= i < j < users.push(u).len() implies users.push(u)[i].id != users.push(u)[j].id by {
        if j < users.len() {
            assert(users.push(u)[i] == users[i]);
            assert(users.push(u)[j] == users[j]);
        } else {
            assert(users.push(u)[i] == users[i]);
            assert(users.push(u)[j] == u);
            if users[i].id == u.id {
                assert(has_id(users, u.id));
            }
        }
    }
}

/// Law (create-then-lookup round trip): a record inserted under a fresh
/// identifier is found again under exactly that identifier.
pub proof fn lemma_create_then_find(users: Seq<UserView>, u: UserView)
    requires
        !has_id(users, u.id),
    ensures
        find_user(users.push(u), u.id) == Option::Some(u),
{
    assert forall|k: int| 0 <= k < users.len() implies users.push(u)[k].id != u.id by {
        assert(users.push(u)[k] == users[k]);
        if users[k].id == u.id {
            assert(has_id(users, u.id));
        }
    }
    assert(users.push(u)[users.len() as int] == u);
    lemma_find_user_at(users.push(u), u.id, users.len() as int);
}

/// Law (no identifier collision): two records created in succession, each
/// under an identifier fresh at its own insertion, carry distinct identifiers.
pub proof fn lemma_successive_creates_distinct(users: Seq<UserView>, u1: UserView, u2: UserView)
    requires
        !has_id(users.push(u1), u2.id),
    ensures
        u1.id != u2.id,
{
    if u1.id == u2.id {
        assert(users.push(u1)[users.len() as int] == u1);
        assert(has_id(users.push(u1), u2.id));
    }
}

/// Relies on `cuid::cuid2`: a freshly generated collision-resistant record
/// identifier, a random letter followed by a base-36 hash, hence nonempty.
/// Its value depends on randomness, a counter and the clock, so nothing
/// beyond nonemptiness is assumed; the store itself enforces uniqueness.
#[verifier::external_body]
pub(crate) fn generate_id() -> (r: String)
    ensures
        r@.len() > 0,
{
    cuid::cuid2()
}

/// The user store. Abstractly it is the sequence of stored records, in
/// insertion order.
pub struct UserStore {
    users: Vec<User>,
}

impl View for UserStore {
    type V = Seq<UserView>;

    closed spec fn view(&self) -> Seq<UserView> {
        self.users.deep_view()
    }
}

impl UserStore {
    /// The store's invariant: stored identifiers are pairwise distinct.
    pub open spec fn wf(&self) -> bool {
        ids_unique(self@)
    }

    /// An empty store.
    pub fn new() -> (s: UserStore)
        ensures
            s@ == Seq::<UserView>::empty(),
            s.wf(),
    {
        let s = UserStore { users: Vec::new() };
        proof {
            assert(s@ =~= Seq::<UserView>::empty());
        }
        s
    }

    /// How many records the store holds.
    pub fn len(&self) -> (n: usize)
        ensures
            n == self@.len(),
    {
        self.users.len()
    }

    /// `findById`: the record under `id` when present. Absence is a normal,
    /// expected outcome, answered with `None` rather than an error.
    pub fn find_by_id(&self, id: &String) -> (r: Option<User>)
        ensures
            match r {
                Option::Some(u) => find_user(self@, id@) == Option::Some(u@),
                Option::None => find_user(self@, id@) is None,
            },
    {
        let n = self.users.len();
        let mut i: usize = 0;
        while i < n
            invariant
                n == self.users.len(),
                0 <= i <= n,
                forall|k: int| 0 <= k < i ==> self@[k].id != id@,
            decreases n - i,
        {
            if self.users[i].id == *id {
                let found = self.users[i].clone();
                proof {
                    lemma_find_user_at(self@, id@, i as int);
                }
                return Option::Some(found);
            }
            i += 1;
        }
        proof {
            if has_id(self@, id@) {
                let k = choose|k: int| 0 <= k < self@.len() && self@[k].id == id@;
                assert(self@[k].id != id@);
            }
            lemma_find_user_has_id(self@, id@);
        }
        Option::None
    }

    /// `createUser`: inserts the row and returns the persisted record. A
    /// duplicate identifier is the store's constraint violation, answered
    /// with the database error; nothing is written then.
    pub fn create_user(&mut self, row: &NewUser<'_>) -> (r: Result<User, BackendError>)
        requires
            old(self).wf(),
        ensures
            final(self).wf(),
            match r {
                Result::Ok(u) => u@ == row.as_user() && !has_id(old(self)@, row.id@)
                    && final(self)@ == old(self)@.push(u@),
                Result::Err(e) => e == BackendError::Database && has_id(old(self)@, row.id@)
                    && final(self)@ == old(self)@,
            },
    {
        let id_owned: String = row.id.to_owned();
        match self.find_by_id(&id_owned) {
            Option::Some(_) => {
                proof {
                    lemma_find_user_has_id(self@, row.id@);
                }
                Result::Err(BackendError::Database)
            },
            Option::None => {
                proof {
                    lemma_find_user_has_id(self@, row.id@);
                }
                let u = User {
                    id: row.id.to_owned(),
                    email: row.email.to_owned(),
                    name: Option::Some(row.name.to_owned()),
                    access_token: row.access_token.to_owned(),
                };
                let persisted = u.clone();
                proof {
                    lemma_push_fresh_keeps_unique(self@, u@);
                }
                self.users.push(u);
                proof {
                    assert(self@ =~= old(self)@.push(persisted@));
                }
                Result::Ok(persisted)
            },
        }
    }
}

} // verus!
