//! Laws of the failed-attempt state machine, proved over the spec
//! transitions that the authentication service's contracts are
//! stated with.

use vstd::prelude::*;
use crate::auth::{
    failed_attempt_result, user_after_failed_attempt, users_after_failed_attempt,
    users_after_successful_login, AuthError,
};
use crate::events::SecurityEvent;
use crate::membership::Subscription;
use crate::security::{
    event_keep, events_without, session_keep, sessions_without, subscription_keep,
    subscriptions_without,
};
use crate::session::UserSession;
use crate::policy::{DESTRUCTION_THRESHOLD, LOCK_DURATION_SECS, LOCK_THRESHOLD};
use crate::store::{
    has_user_with_email, has_user_with_id, lemma_user_idx_by_id, lemma_user_removed,
    user_emails_unique, user_ids_unique, user_idx_by_id,
};
use crate::user::User;

verus! {

/// One failed attempt below the destruction threshold: the table is
/// updated in place at the user's row, ids stay unique, and the
/// user's row position is unchanged.
pub proof fn lemma_failed_attempt_step(users: Seq<User>, id: u64, now: u64)
    requires
        user_ids_unique(users),
        has_user_with_id(users, id),
        users[user_idx_by_id(users, id)].failed_login_attempts + 1 < DESTRUCTION_THRESHOLD,
    ensures
        ({
            let i = user_idx_by_id(users, id);
            let s1 = users_after_failed_attempt(users, id, now);
            &&& s1 == users.update(i, user_after_failed_attempt(users[i], now))
            &&& user_ids_unique(s1)
            &&& has_user_with_id(s1, id)
            &&& user_idx_by_id(s1, id) == i
            &&& s1[i] == user_after_failed_attempt(users[i], now)
            &&& failed_attempt_result(users, id) == Ok::<u32, AuthError>(
                (users[i].failed_login_attempts + 1) as u32,
            )
        }),
{
    let i = user_idx_by_id(users, id);
    let s1 = users.update(i, user_after_failed_attempt(users[i], now));
    assert(forall|k: int| 0 <= k < s1.len() ==> s1[k].id == users[k].id);
    assert(user_ids_unique(s1));
    lemma_user_idx_by_id(s1, id, i);
}

/// One successful login: the counter resets to zero in place, ids
/// stay unique, and the user's row position is unchanged.
pub proof fn lemma_successful_login_step(users: Seq<User>, id: u64, now: u64)
    requires
        user_ids_unique(users),
        has_user_with_id(users, id),
    ensures
        ({
            let i = user_idx_by_id(users, id);
            let s1 = users_after_successful_login(users, id, now);
            &&& s1 == users.update(
                i,
                User { last_login: Some(now), failed_login_attempts: 0, ..users[i] },
            )
            &&& user_ids_unique(s1)
            &&& has_user_with_id(s1, id)
            &&& user_idx_by_id(s1, id) == i
            &&& s1[i] == User { last_login: Some(now), failed_login_attempts: 0, ..users[i] }
        }),
{
    let i = user_idx_by_id(users, id);
    let s1 = users_after_successful_login(users, id, now);
    assert(forall|k: int| 0 <= k < s1.len() ==> s1[k].id == users[k].id);
    assert(user_ids_unique(s1));
    lemma_user_idx_by_id(s1, id, i);
}

/// Lockout threshold: starting from a fresh account, two failed
/// attempts leave it unlocked with the counter at two; the third
/// failed attempt sets a lockout window ending `LOCK_DURATION_SECS`
/// after that attempt, so any moment inside the window counts as
/// locked.
pub proof fn lemma_lockout_threshold(users: Seq<User>, id: u64, t1: u64, t2: u64, t3: u64)
    requires
        user_ids_unique(users),
        has_user_with_id(users, id),
        users[user_idx_by_id(users, id)].failed_login_attempts == 0,
        users[user_idx_by_id(users, id)].account_locked_until is None,
        t3 <= u64::MAX - LOCK_DURATION_SECS,
    ensures
        ({
            let s1 = users_after_failed_attempt(users, id, t1);
            let s2 = users_after_failed_attempt(s1, id, t2);
            let s3 = users_after_failed_attempt(s2, id, t3);
            &&& has_user_with_id(s2, id)
            &&& s2[user_idx_by_id(s2, id)].failed_login_attempts == 2
            &&& s2[user_idx_by_id(s2, id)].account_locked_until is None
            &&& has_user_with_id(s3, id)
            &&& s3[user_idx_by_id(s3, id)].failed_login_attempts == 3
            &&& s3[user_idx_by_id(s3, id)].account_locked_until == Some(
                (t3 + LOCK_DURATION_SECS) as u64,
            )
            &&& (forall|t: u64| t < t3 + LOCK_DURATION_SECS ==> s3[user_idx_by_id(
                s3,
                id,
            )].spec_is_locked(t))
        }),
{
    lemma_failed_attempt_step(users, id, t1);
    let s1 = users_after_failed_attempt(users, id, t1);
    lemma_failed_attempt_step(s1, id, t2);
    let s2 = users_after_failed_attempt(s1, id, t2);
    lemma_failed_attempt_step(s2, id, t3);
}

/// Serialized failed attempts: because each recorded attempt is one
/// atomic read-modify-write of the counter, two attempts from a
/// fresh account always end with the counter at exactly two — never
/// one or three — and no lockout window set.
pub proof fn lemma_two_failed_attempts(users: Seq<User>, id: u64, t1: u64, t2: u64)
    requires
        user_ids_unique(users),
        has_user_with_id(users, id),
        users[user_idx_by_id(users, id)].failed_login_attempts == 0,
        users[user_idx_by_id(users, id)].account_locked_until is None,
    ensures
        ({
            let s1 = users_after_failed_attempt(users, id, t1);
            let s2 = users_after_failed_attempt(s1, id, t2);
            &&& failed_attempt_result(users, id) == Ok::<u32, AuthError>(1)
            &&& failed_attempt_result(s1, id) == Ok::<u32, AuthError>(2)
            &&& has_user_with_id(s2, id)
            &&& s2[user_idx_by_id(s2, id)].failed_login_attempts == 2
            &&& s2[user_idx_by_id(s2, id)].account_locked_until is None
        }),
{
    lemma_failed_attempt_step(users, id, t1);
    let s1 = users_after_failed_attempt(users, id, t1);
    lemma_failed_attempt_step(s1, id, t2);
}

/// Destruction threshold: with the counter one short of the
/// threshold, the next failed attempt reports the destruction and
/// removes the account: neither its id nor its email can be found
/// afterwards.
pub proof fn lemma_destruction_threshold(users: Seq<User>, id: u64, now: u64)
    requires
        user_ids_unique(users),
        user_emails_unique(users),
        has_user_with_id(users, id),
        users[user_idx_by_id(users, id)].failed_login_attempts == DESTRUCTION_THRESHOLD - 1,
    ensures
        ({
            let i = user_idx_by_id(users, id);
            let s1 = users_after_failed_attempt(users, id, now);
            &&& failed_attempt_result(users, id) == Err::<u32, AuthError>(
                AuthError::DestructionTriggered,
            )
            &&& s1 == users.remove(i)
            &&& !has_user_with_id(s1, id)
            &&& !has_user_with_email(s1, users[i].email@)
        }),
{
    let i = user_idx_by_id(users, id);
    lemma_user_removed(users, i, u64::MAX);
}

/// Counter reset: whatever the counter held before, one successful
/// login resets it to zero, and a following failed attempt counts as
/// attempt number one.
pub proof fn lemma_counter_reset(users: Seq<User>, id: u64, t1: u64, t2: u64)
    requires
        user_ids_unique(users),
        has_user_with_id(users, id),
    ensures
        ({
            let s1 = users_after_successful_login(users, id, t1);
            let s2 = users_after_failed_attempt(s1, id, t2);
            &&& has_user_with_id(s1, id)
            &&& s1[user_idx_by_id(s1, id)].failed_login_attempts == 0
            &&& failed_attempt_result(s1, id) == Ok::<u32, AuthError>(1)
            &&& has_user_with_id(s2, id)
            &&& s2[user_idx_by_id(s2, id)].failed_login_attempts == 1
        }),
{
    lemma_successful_login_step(users, id, t1);
    let s1 = users_after_successful_login(users, id, t1);
    lemma_failed_attempt_step(s1, id, t2);
}

/// Destruction scope: erasing a user's dependent rows leaves no
/// session, audit event, or subscription of that user, and keeps
/// every row of every other user. Together with the all-or-nothing
/// contract of the destruction transition itself, a state where the
/// user is gone but their rows remain is never observable.
pub proof fn lemma_destruction_erases_user_rows(
    sessions: Seq<UserSession>,
    events: Seq<SecurityEvent>,
    subs: Seq<Subscription>,
    id: u64,
)
    ensures
        forall|j: int| 0 <= j < sessions_without(sessions, id).len()
            ==> #[trigger] sessions_without(sessions, id)[j].user_id != id,
        forall|j: int| 0 <= j < sessions.len() && #[trigger] sessions[j].user_id != id
            ==> sessions_without(sessions, id).contains(sessions[j]),
        forall|j: int| 0 <= j < events_without(events, id).len()
            ==> #[trigger] events_without(events, id)[j].user_id != Some(id),
        forall|j: int| 0 <= j < events.len() && #[trigger] events[j].user_id != Some(id)
            ==> events_without(events, id).contains(events[j]),
        forall|j: int| 0 <= j < subscriptions_without(subs, id).len()
            ==> #[trigger] subscriptions_without(subs, id)[j].user_id != id,
        forall|j: int| 0 <= j < subs.len() && #[trigger] subs[j].user_id != id
            ==> subscriptions_without(subs, id).contains(subs[j]),
{
    assert forall|j: int| 0 <= j < sessions_without(sessions, id).len()
        implies #[trigger] sessions_without(sessions, id)[j].user_id != id by {
        sessions.lemma_filter_pred(session_keep(id), j);
    }
    assert forall|j: int| 0 <= j < sessions.len() && #[trigger] sessions[j].user_id != id
        implies sessions_without(sessions, id).contains(sessions[j]) by {
        sessions.lemma_filter_contains(session_keep(id), j);
    }
    assert forall|j: int| 0 <= j < events_without(events, id).len()
        implies #[trigger] events_without(events, id)[j].user_id != Some(id) by {
        events.lemma_filter_pred(event_keep(id), j);
    }
    assert forall|j: int| 0 <= j < events.len() && #[trigger] events[j].user_id != Some(id)
        implies events_without(events, id).contains(events[j]) by {
        events.lemma_filter_contains(event_keep(id), j);
    }
    assert forall|j: int| 0 <= j < subscriptions_without(subs, id).len()
        implies #[trigger] subscriptions_without(subs, id)[j].user_id != id by {
        subs.lemma_filter_pred(subscription_keep(id), j);
    }
    assert forall|j: int| 0 <= j < subs.len() && #[trigger] subs[j].user_id != id
        implies subscriptions_without(subs, id).contains(subs[j]) by {
        subs.lemma_filter_contains(subscription_keep(id), j);
    }
}

} // verus!
