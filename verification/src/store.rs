//! The in-memory relational store behind the authentication engine:
//! users, sessions, audit events, destruction logs, and
//! subscriptions, with the invariants the engine maintains on the
//! user table. Each operation of the engine is one atomic transition
//! of this store.

use vstd::prelude::*;
use crate::user::User;
use crate::session::UserSession;
use crate::events::{SecurityEvent, DestructionLog};
use crate::membership::Subscription;
use crate::policy::DESTRUCTION_THRESHOLD;
use crate::strutil::str_eq;

verus! {

/// No two user rows share an id.
pub open spec fn user_ids_unique(users: Seq<User>) -> bool {
    forall|i: int, j: int|
        0 <= i < j < users.len() ==> users[i].id != users[j].id
}

/// No two user rows share an email address.
pub open spec fn user_emails_unique(users: Seq<User>) -> bool {
    forall|i: int, j: int|
        0 <= i < j < users.len() ==> users[i].email@ != users[j].email@
}

/// Every failed-attempt counter is below the destruction threshold;
/// an account that reaches it is destroyed in the same transition.
pub open spec fn counters_below_destruction(users: Seq<User>) -> bool {
    forall|i: int|
        0 <= i < users.len() ==> users[i].failed_login_attempts < DESTRUCTION_THRESHOLD
}

/// Every user id was assigned below the allocation bound.
pub open spec fn user_ids_below(users: Seq<User>, bound: u64) -> bool {
    forall|i: int| 0 <= i < users.len() ==> users[i].id < bound
}

pub open spec fn has_user_with_id(users: Seq<User>, id: u64) -> bool {
    exists|i: int| 0 <= i < users.len() && users[i].id == id
}

/// The row index of the user with the given id (meaningful only when
/// such a row exists and ids are unique).
pub open spec fn user_idx_by_id(users: Seq<User>, id: u64) -> int {
    choose|i: int| 0 <= i < users.len() && users[i].id == id
}

pub open spec fn has_user_with_email(users: Seq<User>, email: Seq<char>) -> bool {
    exists|i: int| 0 <= i < users.len() && users[i].email@ == email
}

/// The row index of the user with the given email (meaningful only
/// when such a row exists and emails are unique).
pub open spec fn user_idx_by_email(users: Seq<User>, email: Seq<char>) -> int {
    choose|i: int| 0 <= i < users.len() && users[i].email@ == email
}

/// Filtering an empty sequence yields an empty sequence.
pub proof fn lemma_filter_empty<A>(pred: spec_fn(A) -> bool)
    ensures
        Seq::<A>::empty().filter(pred) == Seq::<A>::empty(),
{
    reveal_with_fuel(Seq::filter, 2);
}

/// One unfolding step of `filter` at the pushed element.
pub proof fn lemma_filter_push<A>(s: Seq<A>, pred: spec_fn(A) -> bool, x: A)
    ensures
        s.push(x).filter(pred) == (if pred(x) {
            s.filter(pred).push(x)
        } else {
            s.filter(pred)
        }),
{
    reveal_with_fuel(Seq::filter, 2);
    assert(s.push(x).drop_last() =~= s);
    assert(s.push(x).last() == x);
}

/// With unique ids, any row holding `id` is the chosen row.
pub proof fn lemma_user_idx_by_id(users: Seq<User>, id: u64, i: int)
    requires
        user_ids_unique(users),
        0 <= i < users.len(),
        users[i].id == id,
    ensures
        has_user_with_id(users, id),
        user_idx_by_id(users, id) == i,
{
    assert(has_user_with_id(users, id));
    let j = user_idx_by_id(users, id);
    if j < i {
        assert(users[j].id != users[i].id);
    }
    if i < j {
        assert(users[i].id != users[j].id);
    }
}

/// With unique emails, any row holding `email` is the chosen row.
pub proof fn lemma_user_idx_by_email(users: Seq<User>, email: Seq<char>, i: int)
    requires
        user_emails_unique(users),
        0 <= i < users.len(),
        users[i].email@ == email,
    ensures
        has_user_with_email(users, email),
        user_idx_by_email(users, email) == i,
{
    assert(has_user_with_email(users, email));
    let j = user_idx_by_email(users, email);
    if j < i {
        assert(users[j].email@ != users[i].email@);
    }
    if i < j {
        assert(users[i].email@ != users[j].email@);
    }
}

/// Removing row `i` keeps the user-table invariants, removes that
/// row's id and email, and keeps every other id and email.
pub proof fn lemma_user_removed(users: Seq<User>, i: int, bound: u64)
    requires
        0 <= i < users.len(),
        user_ids_unique(users),
        user_emails_unique(users),
    ensures
        user_ids_unique(users.remove(i)),
        user_emails_unique(users.remove(i)),
        user_ids_below(users, bound) ==> user_ids_below(users.remove(i), bound),
        counters_below_destruction(users) ==> counters_below_destruction(users.remove(i)),
        !has_user_with_id(users.remove(i), users[i].id),
        !has_user_with_email(users.remove(i), users[i].email@),
        forall|id: u64| id != users[i].id ==>
            (has_user_with_id(users.remove(i), id) == has_user_with_id(users, id)),
        forall|e: Seq<char>| e != users[i].email@ ==>
            (has_user_with_email(users.remove(i), e) == has_user_with_email(users, e)),
{
    let r = users.remove(i);
    assert(forall|j: int| 0 <= j < r.len() ==>
        r[j] == users[if j < i { j } else { j + 1 }]);
    assert(!has_user_with_id(r, users[i].id)) by {
        if has_user_with_id(r, users[i].id) {
            let j = choose|j: int| 0 <= j < r.len() && r[j].id == users[i].id;
            let k: int = if j < i { j } else { j + 1 };
            assert(users[k].id == users[i].id);
            if k < i {
                assert(users[k].id != users[i].id);
            }
            if i < k {
                assert(users[i].id != users[k].id);
            }
        }
    }
    assert(!has_user_with_email(r, users[i].email@)) by {
        if has_user_with_email(r, users[i].email@) {
            let j = choose|j: int| 0 <= j < r.len() && r[j].email@ == users[i].email@;
            let k: int = if j < i { j } else { j + 1 };
            assert(users[k].email@ == users[i].email@);
            if k < i {
                assert(users[k].email@ != users[i].email@);
            }
            if i < k {
                assert(users[i].email@ != users[k].email@);
            }
        }
    }
    assert forall|id: u64| id != users[i].id && has_user_with_id(users, id)
        implies has_user_with_id(r, id) by {
        let k = choose|k: int| 0 <= k < users.len() && users[k].id == id;
        let j: int = if k < i { k } else { k - 1 };
        assert(r[j].id == id);
    }
    assert forall|e: Seq<char>| e != users[i].email@ && has_user_with_email(users, e)
        implies has_user_with_email(r, e) by {
        let k = choose|k: int| 0 <= k < users.len() && users[k].email@ == e;
        let j: int = if k < i { k } else { k - 1 };
        assert(r[j].email@ == e);
    }
}

/// Updating row `i` without changing its id or email keeps the
/// user-table invariants and the id and email population.
pub proof fn lemma_user_updated(users: Seq<User>, i: int, u: User, bound: u64)
    requires
        0 <= i < users.len(),
        user_ids_unique(users),
        user_emails_unique(users),
        user_ids_below(users, bound),
        u.id == users[i].id,
        u.email@ == users[i].email@,
    ensures
        user_ids_unique(users.update(i, u)),
        user_emails_unique(users.update(i, u)),
        user_ids_below(users.update(i, u), bound),
        (counters_below_destruction(users) && u.failed_login_attempts < DESTRUCTION_THRESHOLD)
            ==> counters_below_destruction(users.update(i, u)),
        forall|id: u64| has_user_with_id(users.update(i, u), id) == has_user_with_id(users, id),
        forall|e: Seq<char>|
            has_user_with_email(users.update(i, u), e) == has_user_with_email(users, e),
{
    let r = users.update(i, u);
    assert forall|id: u64| has_user_with_id(r, id) implies has_user_with_id(users, id) by {
        let j = choose|j: int| 0 <= j < r.len() && r[j].id == id;
        assert(users[j].id == id);
    }
    assert forall|id: u64| has_user_with_id(users, id) implies has_user_with_id(r, id) by {
        let j = choose|j: int| 0 <= j < users.len() && users[j].id == id;
        assert(r[j].id == id);
    }
    assert forall|e: Seq<char>| has_user_with_email(r, e) implies has_user_with_email(users, e) by {
        let j = choose|j: int| 0 <= j < r.len() && r[j].email@ == e;
        assert(users[j].email@ == e);
    }
    assert forall|e: Seq<char>| has_user_with_email(users, e) implies has_user_with_email(r, e) by {
        let j = choose|j: int| 0 <= j < users.len() && users[j].email@ == e;
        assert(r[j].email@ == e);
    }
}

/// Appending a fresh row — id above every existing one, email not
/// yet taken — keeps the user-table invariants.
pub proof fn lemma_user_pushed(users: Seq<User>, u: User, bound: u64)
    requires
        user_ids_unique(users),
        user_emails_unique(users),
        counters_below_destruction(users),
        user_ids_below(users, u.id),
        u.id < bound,
        !has_user_with_email(users, u.email@),
        u.failed_login_attempts < DESTRUCTION_THRESHOLD,
    ensures
        user_ids_unique(users.push(u)),
        user_emails_unique(users.push(u)),
        counters_below_destruction(users.push(u)),
        user_ids_below(users.push(u), bound),
    {
    let r = users.push(u);
    assert forall|i: int, j: int| 0 <= i < j < r.len() implies r[i].email@ != r[j].email@ by {
        if j == users.len() {
            if r[i].email@ == u.email@ {
                assert(users[i].email@ == u.email@);
                assert(has_user_with_email(users, u.email@));
            }
        }
    }
}

/// The shared store. Fields are public so that contracts can speak
/// of its contents directly; the engine's operations require and
/// preserve `wf`.
pub struct AuthStore {
    pub users: Vec<User>,
    pub sessions: Vec<UserSession>,
    pub events: Vec<SecurityEvent>,
    pub destruction_logs: Vec<DestructionLog>,
    pub subscriptions: Vec<Subscription>,
    pub next_user_id: u64,
    pub next_session_id: u64,
    pub next_event_id: u64,
    pub next_log_id: u64,
}

impl AuthStore {
    /// Invariants of the user table.
    pub open spec fn wf(self) -> bool {
        &&& user_ids_unique(self.users@)
        &&& user_emails_unique(self.users@)
        &&& counters_below_destruction(self.users@)
        &&& user_ids_below(self.users@, self.next_user_id)
    }

    /// An empty store.
    pub fn new() -> (r: AuthStore)
        ensures
            r.wf(),
            r.users@ == Seq::<User>::empty(),
            r.sessions@ == Seq::<UserSession>::empty(),
            r.events@ == Seq::<SecurityEvent>::empty(),
            r.destruction_logs@ == Seq::<DestructionLog>::empty(),
            r.subscriptions@ == Seq::<Subscription>::empty(),
            r.next_user_id == 1,
            r.next_session_id == 1,
            r.next_event_id == 1,
            r.next_log_id == 1,
    {
        AuthStore {
            users: Vec::new(),
            sessions: Vec::new(),
            events: Vec::new(),
            destruction_logs: Vec::new(),
            subscriptions: Vec::new(),
            next_user_id: 1,
            next_session_id: 1,
            next_event_id: 1,
            next_log_id: 1,
        }
    }

    /// Row index of the user with this email, if any.
    pub fn find_index_by_email(&self, email: &str) -> (r: Option<usize>)
        ensures
            match r {
                Some(i) => i < self.users@.len() && self.users@[i as int].email@ == email@,
                None => !has_user_with_email(self.users@, email@),
            },
    {
        let n = self.users.len();
        let mut i: usize = 0;
        while i < n
            invariant
                0 <= i <= n,
                n == self.users@.len(),
                forall|j: int| 0 <= j < i ==> self.users@[j].email@ != email@,
            decreases n - i,
        {
            if str_eq(self.users[i].email.as_str(), email) {
                return Some(i);
            }
            i += 1;
        }
        assert(!has_user_with_email(self.users@, email@));
        None
    }

    /// Row index of the user with this id, if any.
    pub fn find_index_by_id(&self, id: u64) -> (r: Option<usize>)
        ensures
            match r {
                Some(i) => i < self.users@.len() && self.users@[i as int].id == id,
                None => !has_user_with_id(self.users@, id),
            },
    {
        let n = self.users.len();
        let mut i: usize = 0;
        while i < n
            invariant
                0 <= i <= n,
                n == self.users@.len(),
                forall|j: int| 0 <= j < i ==> self.users@[j].id != id,
            decreases n - i,
        {
            if self.users[i].id == id {
                return Some(i);
            }
            i += 1;
        }
        assert(!has_user_with_id(self.users@, id));
        None
    }
}

} // verus!
