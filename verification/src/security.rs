//! The security event logger and the destruction coordinator.
//!
//! Logging appends one audit row per call and touches nothing else.
//! Destruction is the single armed-to-executed transition: it writes
//! a write-ahead destruction log row and erases every record of the
//! user in the same atomic step, or fails cleanly with no effect when
//! the user is already gone.

use vstd::prelude::*;
use crate::events::{DataCategory, DestructionLog, EventType, SecurityEvent};
use crate::membership::Subscription;
use crate::session::UserSession;
use crate::store::{
    has_user_with_email, has_user_with_id, lemma_filter_empty, lemma_filter_push,
    lemma_user_idx_by_id, lemma_user_removed, user_emails_unique, user_ids_below,
    user_ids_unique, user_idx_by_id, AuthStore,
};

verus! {

/// Failures of the security subsystem.
#[derive(Clone, Copy, Debug, PartialEq, Eq, Structural)]
pub enum SecurityError {
    /// The backing store refused an operation.
    DatabaseError,
    /// The destruction transition could not be executed; in
    /// particular, the user row was already gone.
    DestructionFailed,
}

/// The fixed risk table keyed by event type; unknown kinds rank 1.
pub open spec fn spec_risk_level(event_type: EventType) -> i32 {
    match event_type {
        EventType::LoginFailed => 3,
        EventType::LoginSuccess => 1,
        EventType::UserRegistered => 2,
        EventType::PasswordReset => 4,
        EventType::DestructionTriggered => 10,
        EventType::SuspiciousActivity => 7,
        EventType::MultipleFailedLogins => 6,
        EventType::AccountLocked => 5,
        EventType::Other => 1,
    }
}

/// The audit row that one `log_security_event` call appends.
pub open spec fn spec_event(
    next_event_id: u64,
    user_id: Option<u64>,
    event_type: EventType,
    ip_address: Option<String>,
    user_agent: Option<String>,
    details: Option<u64>,
    now: u64,
) -> SecurityEvent {
    SecurityEvent {
        id: next_event_id,
        user_id: user_id,
        event_type: event_type,
        ip_address: ip_address,
        user_agent: user_agent,
        details: details,
        risk_level: spec_risk_level(event_type),
        created_at: now,
    }
}

/// The predicate on which session rows survive a destruction.
pub open spec fn session_keep(id: u64) -> spec_fn(UserSession) -> bool {
    |s: UserSession| s.user_id != id
}

/// The predicate on which audit rows survive a destruction.
pub open spec fn event_keep(id: u64) -> spec_fn(SecurityEvent) -> bool {
    |e: SecurityEvent| e.user_id != Some(id)
}

/// The predicate on which subscription rows survive a destruction.
pub open spec fn subscription_keep(id: u64) -> spec_fn(Subscription) -> bool {
    |s: Subscription| s.user_id != id
}

/// The session table with every row of one user erased.
pub open spec fn sessions_without(sessions: Seq<UserSession>, id: u64) -> Seq<UserSession> {
    sessions.filter(session_keep(id))
}

/// The audit trail with every row of one user erased.
pub open spec fn events_without(events: Seq<SecurityEvent>, id: u64) -> Seq<SecurityEvent> {
    events.filter(event_keep(id))
}

/// The subscription table with every row of one user erased.
pub open spec fn subscriptions_without(subs: Seq<Subscription>, id: u64) -> Seq<Subscription> {
    subs.filter(subscription_keep(id))
}

fn retain_sessions_not_of(v: &Vec<UserSession>, id: u64) -> (r: Vec<UserSession>)
    ensures
        r@ == sessions_without(v@, id),
{
    let n = v.len();
    let mut out: Vec<UserSession> = Vec::new();
    let mut i: usize = 0;
    proof {
        lemma_filter_empty::<UserSession>(session_keep(id));
        assert(v@.subrange(0, 0) =~= Seq::<UserSession>::empty());
    }
    while i < n
        invariant
            0 <= i <= n,
            n == v@.len(),
            out@ == sessions_without(v@.subrange(0, i as int), id),
        decreases n - i,
    {
        proof {
            assert(v@.subrange(0, i + 1) =~= v@.subrange(0, i as int).push(v@[i as int]));
            lemma_filter_push::<UserSession>(v@.subrange(0, i as int), session_keep(id), v@[i as int]);
        }
        if v[i].user_id != id {
            out.push(v[i].duplicate());
        }
        i += 1;
    }
    proof {
        assert(v@.subrange(0, n as int) =~= v@);
    }
    out
}

fn retain_events_not_of(v: &Vec<SecurityEvent>, id: u64) -> (r: Vec<SecurityEvent>)
    ensures
        r@ == events_without(v@, id),
{
    let n = v.len();
    let mut out: Vec<SecurityEvent> = Vec::new();
    let mut i: usize = 0;
    proof {
        lemma_filter_empty::<SecurityEvent>(event_keep(id));
        assert(v@.subrange(0, 0) =~= Seq::<SecurityEvent>::empty());
    }
    while i < n
        invariant
            0 <= i <= n,
            n == v@.len(),
            out@ == events_without(v@.subrange(0, i as int), id),
        decreases n - i,
    {
        proof {
            assert(v@.subrange(0, i + 1) =~= v@.subrange(0, i as int).push(v@[i as int]));
            lemma_filter_push::<SecurityEvent>(v@.subrange(0, i as int), event_keep(id), v@[i as int]);
        }
        let keep = match v[i].user_id {
            Some(u) => u != id,
            None => true,
        };
        if keep {
            out.push(v[i].duplicate());
        }
        i += 1;
    }
    proof {
        assert(v@.subrange(0, n as int) =~= v@);
    }
    out
}

fn retain_subscriptions_not_of(v: &Vec<Subscription>, id: u64) -> (r: Vec<Subscription>)
    ensures
        r@ == subscriptions_without(v@, id),
{
    let n = v.len();
    let mut out: Vec<Subscription> = Vec::new();
    let mut i: usize = 0;
    proof {
        lemma_filter_empty::<Subscription>(subscription_keep(id));
        assert(v@.subrange(0, 0) =~= Seq::<Subscription>::empty());
    }
    while i < n
        invariant
            0 <= i <= n,
            n == v@.len(),
            out@ == subscriptions_without(v@.subrange(0, i as int), id),
        decreases n - i,
    {
        proof {
            assert(v@.subrange(0, i + 1) =~= v@.subrange(0, i as int).push(v@[i as int]));
            lemma_filter_push::<Subscription>(v@.subrange(0, i as int), subscription_keep(id), v@[i as int]);
        }
        if v[i].user_id != id {
            out.push(v[i].duplicate());
        }
        i += 1;
    }
    proof {
        assert(v@.subrange(0, n as int) =~= v@);
    }
    out
}

/// Records security events and coordinates account destruction.
#[derive(Clone, Copy, Debug)]
pub struct SecurityService {
    _private: (),
}

impl SecurityService {
    pub fn new() -> (r: SecurityService) {
        SecurityService { _private: () }
    }

    /// The deterministic risk level of an event type.
    pub fn calculate_risk_level(&self, event_type: EventType) -> (r: i32)
        ensures
            r == spec_risk_level(event_type),
    {
        match event_type {
            EventType::LoginFailed => 3,
            EventType::LoginSuccess => 1,
            EventType::UserRegistered => 2,
            EventType::PasswordReset => 4,
            EventType::DestructionTriggered => 10,
            EventType::SuspiciousActivity => 7,
            EventType::MultipleFailedLogins => 6,
            EventType::AccountLocked => 5,
            EventType::Other => 1,
        }
    }

    /// Appends one audit row with its derived risk level; every other
    /// table is untouched. Appending to the in-memory trail cannot
    /// fail, so logging never disturbs the caller's own operation.
    pub fn log_security_event(
        &self,
        store: &mut AuthStore,
        user_id: Option<u64>,
        event_type: EventType,
        ip_address: Option<String>,
        user_agent: Option<String>,
        details: Option<u64>,
        now: u64,
    )
        requires
            old(store).next_event_id < u64::MAX,
        ensures
            final(store).events@ == old(store).events@.push(
                spec_event(
                    old(store).next_event_id,
                    user_id,
                    event_type,
                    ip_address,
                    user_agent,
                    details,
                    now,
                ),
            ),
            final(store).next_event_id == old(store).next_event_id + 1,
            final(store).users == old(store).users,
            final(store).sessions == old(store).sessions,
            final(store).destruction_logs == old(store).destruction_logs,
            final(store).subscriptions == old(store).subscriptions,
            final(store).next_user_id == old(store).next_user_id,
            final(store).next_session_id == old(store).next_session_id,
            final(store).next_log_id == old(store).next_log_id,
    {
        let risk_level = self.calculate_risk_level(event_type);
        let event = SecurityEvent {
            id: store.next_event_id,
            user_id: user_id,
            event_type: event_type,
            ip_address: ip_address,
            user_agent: user_agent,
            details: details,
            risk_level: risk_level,
            created_at: now,
        };
        store.events.push(event);
        store.next_event_id = store.next_event_id + 1;
    }

    /// The destruction transition of §destruction. When the user row
    /// exists, one call atomically appends the write-ahead
    /// destruction log row and erases the user row together with all
    /// of the user's sessions, audit events, and subscriptions. When
    /// the row is already gone — in particular on a second call for
    /// the same user — the call fails with `DestructionFailed` and
    /// the store is exactly as before: partial destruction is never
    /// observable.
    pub fn trigger_destruction(
        &self,
        store: &mut AuthStore,
        user_id: u64,
        trigger_type: String,
        now: u64,
    ) -> (r: Result<(), SecurityError>)
        requires
            user_ids_unique(old(store).users@),
            user_emails_unique(old(store).users@),
            user_ids_below(old(store).users@, old(store).next_user_id),
            old(store).next_log_id < u64::MAX,
        ensures
            r is Ok <==> has_user_with_id(old(store).users@, user_id),
            !has_user_with_id(old(store).users@, user_id) ==> r == Err::<(), SecurityError>(
                SecurityError::DestructionFailed,
            ) && *final(store) == *old(store),
            has_user_with_id(old(store).users@, user_id) ==> ({
                let users0 = old(store).users@;
                let i = user_idx_by_id(users0, user_id);
                &&& final(store).users@ == users0.remove(i)
                &&& !has_user_with_id(final(store).users@, user_id)
                &&& !has_user_with_email(final(store).users@, users0[i].email@)
                &&& (forall|id2: u64| id2 != user_id ==>
                    has_user_with_id(final(store).users@, id2) == has_user_with_id(users0, id2))
                &&& (forall|e: Seq<char>| e != users0[i].email@ ==>
                    has_user_with_email(final(store).users@, e) == has_user_with_email(users0, e))
                &&& user_ids_unique(final(store).users@)
                &&& user_emails_unique(final(store).users@)
                &&& user_ids_below(final(store).users@, final(store).next_user_id)
                &&& final(store).sessions@ == sessions_without(old(store).sessions@, user_id)
                &&& final(store).events@ == events_without(old(store).events@, user_id)
                &&& final(store).subscriptions@ == subscriptions_without(
                    old(store).subscriptions@,
                    user_id,
                )
                &&& final(store).destruction_logs@.len() == old(store).destruction_logs@.len() + 1
                &&& final(store).destruction_logs@.subrange(
                    0,
                    old(store).destruction_logs@.len() as int,
                ) == old(store).destruction_logs@
                &&& ({
                    let row = final(store).destruction_logs@.last();
                    &&& row.id == old(store).next_log_id
                    &&& row.user_id == Some(user_id)
                    &&& row.trigger_type == trigger_type
                    &&& row.data_types_destroyed@ == seq![
                        DataCategory::UserData,
                        DataCategory::Sessions,
                        DataCategory::Files,
                    ]
                    &&& row.execution_time == now
                    &&& row.success == true
                    &&& row.forensic_residue_level == 0
                    &&& row.details is None
                })
                &&& final(store).next_log_id == old(store).next_log_id + 1
                &&& final(store).next_user_id == old(store).next_user_id
                &&& final(store).next_session_id == old(store).next_session_id
                &&& final(store).next_event_id == old(store).next_event_id
            }),
    {
        let idx = match store.find_index_by_id(user_id) {
            Some(i) => i,
            None => {
                return Err(SecurityError::DestructionFailed);
            },
        };
        proof {
            lemma_user_idx_by_id(store.users@, user_id, idx as int);
        }

        // Write-ahead audit row, recorded ahead of the destructive
        // steps of this same atomic transition.
        let mut data_types: Vec<DataCategory> = Vec::new();
        data_types.push(DataCategory::UserData);
        data_types.push(DataCategory::Sessions);
        data_types.push(DataCategory::Files);
        proof {
            assert(data_types@ =~= seq![
                DataCategory::UserData,
                DataCategory::Sessions,
                DataCategory::Files,
            ]);
        }
        let row = DestructionLog {
            id: store.next_log_id,
            user_id: Some(user_id),
            trigger_type: trigger_type,
            data_types_destroyed: data_types,
            execution_time: now,
            success: true,
            forensic_residue_level: 0,
            details: None,
        };
        store.destruction_logs.push(row);
        store.next_log_id = store.next_log_id + 1;

        let kept_sessions = retain_sessions_not_of(&store.sessions, user_id);
        store.sessions = kept_sessions;
        let kept_events = retain_events_not_of(&store.events, user_id);
        store.events = kept_events;
        let kept_subscriptions = retain_subscriptions_not_of(&store.subscriptions, user_id);
        store.subscriptions = kept_subscriptions;

        proof {
            lemma_user_removed(store.users@, idx as int, store.next_user_id);
        }
        store.users.remove(idx);
        Ok(())
    }
}

} // verus!
