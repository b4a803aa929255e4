//! The authentication service: registration, the two-step login
//! flow, failed-attempt tracking with lockout and destruction, and
//! token verification.
//!
//! Each operation takes the current time as an explicit epoch-second
//! argument, so the whole state machine is specified and verified;
//! the caller supplies the clock. The failed-attempt and
//! successful-login transitions of the user table are given as spec
//! functions, which the lemmas about lockout, destruction, and
//! counter reset build on.

use vstd::prelude::*;
use crate::crypto;
use crate::crypto::{argon2_verifies, jwt_payload, spec_u64_string};
use crate::events::EventType;
use crate::policy::{
    DESTRUCTION_THRESHOLD, LOCK_DURATION_SECS, LOCK_THRESHOLD, LOGIN_STEP_WINDOW_SECS,
};
use crate::security::{
    sessions_without, spec_event, subscriptions_without, events_without, SecurityService,
};
use crate::session::UserSession;
use crate::store::{
    has_user_with_email, has_user_with_id, lemma_user_idx_by_email, lemma_user_idx_by_id,
    lemma_user_pushed, lemma_user_updated, user_idx_by_email, user_idx_by_id, AuthStore,
};
use crate::strutil::clone_opt_string;
use crate::user::{CreateUserRequest, LoginRequest, User, UserPublic};

verus! {

/// Failures of the authentication service, all terminal for the
/// request that met them.
#[derive(Clone, Copy, Debug, PartialEq, Eq, Structural)]
pub enum AuthError {
    InvalidCredentials,
    UserNotFound,
    AccountLocked,
    EmailNotVerified,
    MfaRequired,
    InvalidToken,
    DatabaseError,
    HashingError,
    TokenGenerationError,
    DestructionTriggered,
    UserAlreadyExists,
}

/// The payload of a signed access token.
pub struct Claims {
    /// Subject: the user id, in decimal.
    pub sub: String,
    /// Expiry, epoch seconds.
    pub exp: u64,
    /// Issued at, epoch seconds.
    pub iat: u64,
    pub membership_tier: String,
    pub mfa_verified: bool,
}

/// What a completed login hands back to the client.
pub struct LoginResponse {
    pub access_token: String,
    pub refresh_token: String,
    pub user: UserPublic,
    pub expires_at: u64,
}

/// The short-lived marker returned by login initiation.
pub struct LoginStep {
    pub step: u8,
    pub session_id: String,
    pub expires_at: u64,
    pub requires_mfa: bool,
    pub message: String,
}

/// The lockout stamp after a failed attempt: reaching the lock
/// threshold opens (or renews) a lockout window.
pub open spec fn locked_until_after(prev: Option<u64>, new_count: u32, now: u64) -> Option<u64> {
    if new_count >= LOCK_THRESHOLD {
        Some((now + LOCK_DURATION_SECS) as u64)
    } else {
        prev
    }
}

/// One user row after a failed login attempt at time `now`.
pub open spec fn user_after_failed_attempt(u: User, now: u64) -> User {
    User {
        failed_login_attempts: (u.failed_login_attempts + 1) as u32,
        account_locked_until: locked_until_after(
            u.account_locked_until,
            (u.failed_login_attempts + 1) as u32,
            now,
        ),
        ..u
    }
}

/// The user table after a failed login attempt against `id` at time
/// `now`: the counter rises, the lock window may be set, and at the
/// destruction threshold the row disappears.
pub open spec fn users_after_failed_attempt(users: Seq<User>, id: u64, now: u64) -> Seq<User> {
    if !has_user_with_id(users, id) {
        users
    } else {
        let i = user_idx_by_id(users, id);
        let updated = user_after_failed_attempt(users[i], now);
        if updated.failed_login_attempts >= DESTRUCTION_THRESHOLD {
            users.remove(i)
        } else {
            users.update(i, updated)
        }
    }
}

/// What recording a failed attempt against `id` reports: the new
/// counter value below the destruction threshold, and distinct
/// errors for a missing user and a triggered destruction.
pub open spec fn failed_attempt_result(users: Seq<User>, id: u64) -> Result<u32, AuthError> {
    if !has_user_with_id(users, id) {
        Err(AuthError::UserNotFound)
    } else {
        let new_count = (users[user_idx_by_id(users, id)].failed_login_attempts + 1) as u32;
        if new_count >= DESTRUCTION_THRESHOLD {
            Err(AuthError::DestructionTriggered)
        } else {
            Ok(new_count)
        }
    }
}

/// The user table after a successful login of `id` at time `now`:
/// the failed-attempt counter resets to zero and the login time is
/// stamped.
pub open spec fn users_after_successful_login(users: Seq<User>, id: u64, now: u64) -> Seq<User> {
    if !has_user_with_id(users, id) {
        users
    } else {
        let i = user_idx_by_id(users, id);
        users.update(
            i,
            User { last_login: Some(now), failed_login_attempts: 0, ..users[i] },
        )
    }
}

/// The authentication service. Configuration is injected once at
/// construction; the store is the service's single shared mutable
/// resource, and every operation is one atomic transition of it.
pub struct AuthService {
    pub jwt_secret: String,
    /// Access-token lifetime in seconds.
    pub jwt_expiration: u64,
    pub security_service: SecurityService,
    pub store: AuthStore,
}

impl AuthService {
    pub open spec fn wf(self) -> bool {
        self.store.wf()
    }

    pub fn new(jwt_secret: String, jwt_expiration: u64, security_service: SecurityService) -> (r:
        AuthService)
        ensures
            r.wf(),
            r.jwt_secret == jwt_secret,
            r.jwt_expiration == jwt_expiration,
            r.store.users@ == Seq::<User>::empty(),
            r.store.sessions@.len() == 0,
            r.store.events@.len() == 0,
            r.store.destruction_logs@.len() == 0,
            r.store.subscriptions@.len() == 0,
            r.store.next_user_id == 1,
            r.store.next_session_id == 1,
            r.store.next_event_id == 1,
            r.store.next_log_id == 1,
    {
        AuthService { jwt_secret, jwt_expiration, security_service, store: AuthStore::new() }
    }

    /// Looks the user up by exact email match.
    pub fn find_user_by_email(&self, email: &str) -> (r: Result<User, AuthError>)
        requires
            self.wf(),
        ensures
            has_user_with_email(self.store.users@, email@) ==> (r matches Ok(u) && u
                == self.store.users@[user_idx_by_email(self.store.users@, email@)]),
            !has_user_with_email(self.store.users@, email@) ==> r == Err::<User, AuthError>(
                AuthError::UserNotFound,
            ),
    {
        match self.store.find_index_by_email(email) {
            Some(i) => {
                proof {
                    lemma_user_idx_by_email(self.store.users@, email@, i as int);
                }
                Ok(self.store.users[i].duplicate())
            },
            None => Err(AuthError::UserNotFound),
        }
    }

    /// Registers a new account from an already-hashed credential and
    /// a prepared verification token: succeeds exactly when the email
    /// is free.
    pub fn register_user_with_hash(
        &mut self,
        email: String,
        password_hash: String,
        membership_tier: Option<String>,
        verification_token: String,
        now: u64,
    ) -> (r: Result<User, AuthError>)
        requires
            old(self).wf(),
            old(self).store.next_user_id < u64::MAX,
            old(self).store.next_event_id < u64::MAX,
        ensures
            final(self).wf(),
            final(self).jwt_secret == old(self).jwt_secret,
            final(self).jwt_expiration == old(self).jwt_expiration,
            has_user_with_email(old(self).store.users@, email@) ==> (r == Err::<User, AuthError>(
                AuthError::UserAlreadyExists,
            ) && *final(self) == *old(self)),
            !has_user_with_email(old(self).store.users@, email@) ==> (r matches Ok(u) && {
                &&& u.id == old(self).store.next_user_id
                &&& u.email == email
                &&& u.password_hash == password_hash
                &&& (membership_tier matches Some(t) ==> u.membership_tier == t)
                &&& (membership_tier is None ==> u.membership_tier@ == "basic"@)
                &&& u.created_at == now
                &&& u.last_login is None
                &&& u.failed_login_attempts == 0
                &&& u.account_locked_until is None
                &&& u.mfa_enabled == false
                &&& u.email_verified == false
                &&& u.email_verification_token == verification_token
                &&& u.password_reset_token is None
                &&& u.password_reset_expires is None
                &&& final(self).store.users@ == old(self).store.users@.push(u)
                &&& final(self).store.next_user_id == old(self).store.next_user_id + 1
                &&& final(self).store.events@ == old(self).store.events@.push(
                    spec_event(
                        old(self).store.next_event_id,
                        Some(u.id),
                        EventType::UserRegistered,
                        None,
                        None,
                        None,
                        now,
                    ),
                )
                &&& final(self).store.next_event_id == old(self).store.next_event_id + 1
                &&& final(self).store.sessions == old(self).store.sessions
                &&& final(self).store.destruction_logs == old(self).store.destruction_logs
                &&& final(self).store.subscriptions == old(self).store.subscriptions
                &&& final(self).store.next_session_id == old(self).store.next_session_id
                &&& final(self).store.next_log_id == old(self).store.next_log_id
            }),
    {
        if let Some(_i) = self.store.find_index_by_email(email.as_str()) {
            return Err(AuthError::UserAlreadyExists);
        }
        let tier = match membership_tier {
            Some(t) => t,
            None => ("basic").to_owned(),
        };
        let user = User {
            id: self.store.next_user_id,
            email,
            password_hash,
            membership_tier: tier,
            created_at: now,
            last_login: None,
            failed_login_attempts: 0,
            account_locked_until: None,
            mfa_enabled: false,
            email_verified: false,
            email_verification_token: verification_token,
            password_reset_token: None,
            password_reset_expires: None,
        };
        let result = user.duplicate();
        proof {
            lemma_user_pushed(
                self.store.users@,
                user,
                (self.store.next_user_id + 1) as u64,
            );
        }
        self.store.users.push(user);
        self.store.next_user_id = self.store.next_user_id + 1;
        let uid = result.id;
        self.security_service.log_security_event(
            &mut self.store,
            Some(uid),
            EventType::UserRegistered,
            None,
            None,
            None,
            now,
        );
        Ok(result)
    }

    /// Registers a new account: free email, freshly hashed
    /// credential, fresh verification token, audit row appended.
    pub fn register_user(&mut self, request: CreateUserRequest, now: u64) -> (r: Result<
        User,
        AuthError,
    >)
        requires
            old(self).wf(),
            old(self).store.next_user_id < u64::MAX,
            old(self).store.next_event_id < u64::MAX,
        ensures
            final(self).wf(),
            final(self).jwt_secret == old(self).jwt_secret,
            final(self).jwt_expiration == old(self).jwt_expiration,
            has_user_with_email(old(self).store.users@, request.email@) ==> (r == Err::<
                User,
                AuthError,
            >(AuthError::UserAlreadyExists) && *final(self) == *old(self)),
            !has_user_with_email(old(self).store.users@, request.email@) ==> (match r {
                Ok(u) => {
                    &&& u.id == old(self).store.next_user_id
                    &&& u.email == request.email
                    &&& argon2_verifies(request.password@, u.password_hash@)
                    &&& (request.membership_tier matches Some(t) ==> u.membership_tier == t)
                    &&& (request.membership_tier is None ==> u.membership_tier@ == "basic"@)
                    &&& u.created_at == now
                    &&& u.last_login is None
                    &&& u.failed_login_attempts == 0
                    &&& u.account_locked_until is None
                    &&& u.mfa_enabled == false
                    &&& u.email_verified == false
                    &&& u.email_verification_token@.len() == 44
                    &&& u.password_reset_token is None
                    &&& u.password_reset_expires is None
                    &&& final(self).store.users@ == old(self).store.users@.push(u)
                    &&& final(self).store.next_user_id == old(self).store.next_user_id + 1
                    &&& final(self).store.events@ == old(self).store.events@.push(
                        spec_event(
                            old(self).store.next_event_id,
                            Some(u.id),
                            EventType::UserRegistered,
                            None,
                            None,
                            None,
                            now,
                        ),
                    )
                    &&& final(self).store.next_event_id == old(self).store.next_event_id + 1
                    &&& final(self).store.sessions == old(self).store.sessions
                    &&& final(self).store.destruction_logs == old(self).store.destruction_logs
                    &&& final(self).store.subscriptions == old(self).store.subscriptions
                    &&& final(self).store.next_session_id == old(self).store.next_session_id
                    &&& final(self).store.next_log_id == old(self).store.next_log_id
                },
                Err(e) => (e == AuthError::HashingError || e == AuthError::TokenGenerationError)
                    && *final(self) == *old(self),
            }),
    {
        if let Some(_i) = self.store.find_index_by_email(request.email.as_str()) {
            return Err(AuthError::UserAlreadyExists);
        }
        let password_hash = match crypto::hash_password(request.password.as_str()) {
            Ok(h) => h,
            Err(_) => {
                return Err(AuthError::HashingError);
            },
        };
        let verification_token = match crypto::generate_secure_token() {
            Some(t) => t,
            None => {
                return Err(AuthError::TokenGenerationError);
            },
        };
        self.register_user_with_hash(
            request.email,
            password_hash,
            request.membership_tier,
            verification_token,
            now,
        )
    }

    /// First step of the two-step login flow: looks the user up,
    /// rejects a locked account, and returns a short-lived marker
    /// saying whether the second step will require MFA. The password
    /// is not consulted here; this step prepares the client, it is
    /// not a security boundary.
    pub fn initiate_login(&self, email: &str, _ip_address: Option<String>, now: u64) -> (r: Result<
        LoginStep,
        AuthError,
    >)
        requires
            self.wf(),
            now <= u64::MAX - LOGIN_STEP_WINDOW_SECS,
        ensures
            !has_user_with_email(self.store.users@, email@) ==> r == Err::<LoginStep, AuthError>(
                AuthError::UserNotFound,
            ),
            has_user_with_email(self.store.users@, email@) ==> ({
                let u = self.store.users@[user_idx_by_email(self.store.users@, email@)];
                &&& (u.spec_is_locked(now) ==> r == Err::<LoginStep, AuthError>(
                    AuthError::AccountLocked,
                ))
                &&& (!u.spec_is_locked(now) ==> ((r matches Ok(step) && {
                    &&& step.step == 1
                    &&& step.session_id@.len() == 44
                    &&& step.expires_at == now + LOGIN_STEP_WINDOW_SECS
                    &&& step.requires_mfa == u.mfa_enabled
                    &&& step.message@ == "Enter your password"@
                }) || r == Err::<LoginStep, AuthError>(AuthError::TokenGenerationError)))
            }),
    {
        let idx = match self.store.find_index_by_email(email) {
            Some(i) => i,
            None => {
                return Err(AuthError::UserNotFound);
            },
        };
        proof {
            lemma_user_idx_by_email(self.store.users@, email@, idx as int);
        }
        if self.store.users[idx].is_locked(now) {
            return Err(AuthError::AccountLocked);
        }
        let session_id = match crypto::generate_secure_token() {
            Some(t) => t,
            None => {
                return Err(AuthError::TokenGenerationError);
            },
        };
        Ok(LoginStep {
            step: 1,
            session_id,
            expires_at: now + LOGIN_STEP_WINDOW_SECS,
            requires_mfa: self.store.users[idx].mfa_enabled,
            message: ("Enter your password").to_owned(),
        })
    }

    /// Records one failed login attempt against `user_id` as a
    /// single atomic transition: the counter rises by one, reaching
    /// the lock threshold sets a lockout window of
    /// `LOCK_DURATION_SECS`, the attempt is logged, and reaching the
    /// destruction threshold hands the account to the destruction
    /// coordinator and reports `DestructionTriggered`.
    pub fn increment_failed_attempts(
        &mut self,
        user_id: u64,
        ip_address: Option<String>,
        now: u64,
    ) -> (r: Result<u32, AuthError>)
        requires
            old(self).wf(),
            old(self).store.next_event_id < u64::MAX,
            old(self).store.next_log_id < u64::MAX,
            now <= u64::MAX - LOCK_DURATION_SECS,
        ensures
            final(self).wf(),
            final(self).jwt_secret == old(self).jwt_secret,
            final(self).jwt_expiration == old(self).jwt_expiration,
            r == failed_attempt_result(old(self).store.users@, user_id),
            final(self).store.users@ == users_after_failed_attempt(
                old(self).store.users@,
                user_id,
                now,
            ),
            !has_user_with_id(old(self).store.users@, user_id) ==> *final(self) == *old(self),
            has_user_with_id(old(self).store.users@, user_id) ==> ({
                let users0 = old(self).store.users@;
                let i = user_idx_by_id(users0, user_id);
                let new_count = (users0[i].failed_login_attempts + 1) as u32;
                &&& (new_count < DESTRUCTION_THRESHOLD ==> {
                    &&& final(self).store.events@ == old(self).store.events@.push(
                        spec_event(
                            old(self).store.next_event_id,
                            Some(user_id),
                            EventType::LoginFailed,
                            ip_address,
                            None,
                            Some(new_count as u64),
                            now,
                        ),
                    )
                    &&& final(self).store.next_event_id == old(self).store.next_event_id + 1
                    &&& final(self).store.sessions == old(self).store.sessions
                    &&& final(self).store.destruction_logs == old(self).store.destruction_logs
                    &&& final(self).store.subscriptions == old(self).store.subscriptions
                    &&& final(self).store.next_session_id == old(self).store.next_session_id
                    &&& final(self).store.next_user_id == old(self).store.next_user_id
                    &&& final(self).store.next_log_id == old(self).store.next_log_id
                })
                &&& (new_count >= DESTRUCTION_THRESHOLD ==> {
                    &&& !has_user_with_id(final(self).store.users@, user_id)
                    &&& !has_user_with_email(final(self).store.users@, users0[i].email@)
                    &&& final(self).store.sessions@ == sessions_without(
                        old(self).store.sessions@,
                        user_id,
                    )
                    &&& final(self).store.events@ == events_without(
                        old(self).store.events@,
                        user_id,
                    )
                    &&& final(self).store.subscriptions@ == subscriptions_without(
                        old(self).store.subscriptions@,
                        user_id,
                    )
                    &&& final(self).store.destruction_logs@.len() == old(
                        self,
                    ).store.destruction_logs@.len() + 1
                    &&& final(self).store.destruction_logs@.subrange(
                        0,
                        old(self).store.destruction_logs@.len() as int,
                    ) == old(self).store.destruction_logs@
                    &&& ({
                        let row = final(self).store.destruction_logs@.last();
                        &&& row.user_id == Some(user_id)
                        &&& row.trigger_type@ == "failed_login_threshold"@
                        &&& row.execution_time == now
                        &&& row.success == true
                    })
                    &&& final(self).store.next_event_id == old(self).store.next_event_id + 1
                    &&& final(self).store.next_log_id == old(self).store.next_log_id + 1
                    &&& final(self).store.next_session_id == old(self).store.next_session_id
                    &&& final(self).store.next_user_id == old(self).store.next_user_id
                })
            }),
    {
        let idx = match self.store.find_index_by_id(user_id) {
            Some(i) => i,
            None => {
                return Err(AuthError::UserNotFound);
            },
        };
        proof {
            lemma_user_idx_by_id(self.store.users@, user_id, idx as int);
        }
        let prev = self.store.users[idx].duplicate();
        let new_count = prev.failed_login_attempts + 1;
        let account_locked_until: Option<u64> = if new_count >= LOCK_THRESHOLD {
            Some(now + LOCK_DURATION_SECS)
        } else {
            prev.account_locked_until
        };
        let updated = User { failed_login_attempts: new_count, account_locked_until, ..prev };
        proof {
            lemma_user_updated(self.store.users@, idx as int, updated, self.store.next_user_id);
        }
        self.store.users.set(idx, updated);

        let ghost logged_event = spec_event(
            self.store.next_event_id,
            Some(user_id),
            EventType::LoginFailed,
            ip_address,
            None,
            Some(new_count as u64),
            now,
        );
        self.security_service.log_security_event(
            &mut self.store,
            Some(user_id),
            EventType::LoginFailed,
            ip_address,
            None,
            Some(new_count as u64),
            now,
        );

        if new_count >= DESTRUCTION_THRESHOLD {
            proof {
                lemma_user_idx_by_id(self.store.users@, user_id, idx as int);
            }
            let ghost mid_events = self.store.events@;
            let destroyed = self.security_service.trigger_destruction(
                &mut self.store,
                user_id,
                ("failed_login_threshold").to_owned(),
                now,
            );
            proof {
                let users0 = old(self).store.users@;
                let i = user_idx_by_id(users0, user_id);
                assert(self.store.users@ =~= users0.remove(i));
                assert forall|j: int| 0 <= j < self.store.users@.len() implies
                    self.store.users@[j].failed_login_attempts < DESTRUCTION_THRESHOLD by {
                    let k: int = if j < i { j } else { j + 1 };
                    assert(self.store.users@[j] == users0[k]);
                }
                assert(mid_events == old(self).store.events@.push(logged_event));
                crate::store::lemma_filter_push(
                    old(self).store.events@,
                    crate::security::event_keep(user_id),
                    logged_event,
                );
                assert(!crate::security::event_keep(user_id)(logged_event));
                assert(self.store.events@ == events_without(old(self).store.events@, user_id));
            }
            match destroyed {
                Ok(_) => {},
                Err(_) => {},
            }
            return Err(AuthError::DestructionTriggered);
        }
        Ok(new_count)
    }

    /// Issues the signed access token for `user`, valid from `now`
    /// for the configured lifetime. Issuance always succeeds: HMAC
    /// signing has no failure mode.
    pub fn generate_access_token(&self, user: &User, now: u64) -> (r: Result<String, AuthError>)
        requires
            now + self.jwt_expiration <= u64::MAX,
        ensures
            r matches Ok(t) && jwt_payload(self.jwt_secret@, t@) == Some(
                (
                    spec_u64_string(user.id),
                    (now + self.jwt_expiration) as u64,
                    now,
                    user.membership_tier@,
                    !user.mfa_enabled,
                ),
            ),
    {
        let claims = Claims {
            sub: crypto::u64_to_string(user.id),
            exp: now + self.jwt_expiration,
            iat: now,
            membership_tier: user.membership_tier.clone(),
            // Without MFA enabled there is nothing further to
            // verify, so the claim is set at issuance.
            mfa_verified: !user.mfa_enabled,
        };
        Ok(crypto::issue_token(self.jwt_secret.as_str(), &claims))
    }

    /// Second step of the login flow, one atomic transition: verify
    /// the credential; on a mismatch record the failed attempt (which
    /// may lock or destroy the account); on a match re-check the
    /// lockout window, then issue tokens, persist the session, reset
    /// the failed-attempt counter, and log the success.
    pub fn complete_login(
        &mut self,
        request: LoginRequest,
        ip_address: Option<String>,
        user_agent: Option<String>,
        now: u64,
    ) -> (r: Result<LoginResponse, AuthError>)
        requires
            old(self).wf(),
            old(self).store.next_event_id < u64::MAX,
            old(self).store.next_log_id < u64::MAX,
            old(self).store.next_session_id < u64::MAX,
            now <= u64::MAX - LOCK_DURATION_SECS,
            now + old(self).jwt_expiration <= u64::MAX,
        ensures
            final(self).wf(),
            final(self).jwt_secret == old(self).jwt_secret,
            final(self).jwt_expiration == old(self).jwt_expiration,
            !has_user_with_email(old(self).store.users@, request.email@) ==> (r == Err::<
                LoginResponse,
                AuthError,
            >(AuthError::UserNotFound) && *final(self) == *old(self)),
            has_user_with_email(old(self).store.users@, request.email@) ==> ({
                let users0 = old(self).store.users@;
                let u = users0[user_idx_by_email(users0, request.email@)];
                &&& (!argon2_verifies(request.password@, u.password_hash@) ==> ({
                    let new_count = (u.failed_login_attempts + 1) as u32;
                    &&& final(self).store.users@ == users_after_failed_attempt(
                        users0,
                        u.id,
                        now,
                    )
                    &&& r == (if new_count >= DESTRUCTION_THRESHOLD {
                        Err::<LoginResponse, AuthError>(AuthError::DestructionTriggered)
                    } else {
                        Err::<LoginResponse, AuthError>(AuthError::InvalidCredentials)
                    })
                    &&& final(self).store.next_user_id == old(self).store.next_user_id
                    &&& final(self).store.next_session_id == old(self).store.next_session_id
                    &&& final(self).store.next_event_id == old(self).store.next_event_id + 1
                    &&& (new_count < DESTRUCTION_THRESHOLD ==> {
                        &&& final(self).store.events@ == old(self).store.events@.push(
                            spec_event(
                                old(self).store.next_event_id,
                                Some(u.id),
                                EventType::LoginFailed,
                                ip_address,
                                None,
                                Some(new_count as u64),
                                now,
                            ),
                        )
                        &&& final(self).store.sessions == old(self).store.sessions
                        &&& final(self).store.destruction_logs == old(
                            self,
                        ).store.destruction_logs
                        &&& final(self).store.subscriptions == old(self).store.subscriptions
                        &&& final(self).store.next_log_id == old(self).store.next_log_id
                    })
                    &&& (new_count >= DESTRUCTION_THRESHOLD ==> {
                        &&& !has_user_with_id(final(self).store.users@, u.id)
                        &&& !has_user_with_email(final(self).store.users@, request.email@)
                        &&& final(self).store.sessions@ == sessions_without(
                            old(self).store.sessions@,
                            u.id,
                        )
                        &&& final(self).store.events@ == events_without(
                            old(self).store.events@,
                            u.id,
                        )
                        &&& final(self).store.subscriptions@ == subscriptions_without(
                            old(self).store.subscriptions@,
                            u.id,
                        )
                        &&& final(self).store.destruction_logs@.len() == old(
                            self,
                        ).store.destruction_logs@.len() + 1
                        &&& final(self).store.destruction_logs@.subrange(
                            0,
                            old(self).store.destruction_logs@.len() as int,
                        ) == old(self).store.destruction_logs@
                        &&& ({
                            let row = final(self).store.destruction_logs@.last();
                            &&& row.user_id == Some(u.id)
                            &&& row.trigger_type@ == "failed_login_threshold"@
                            &&& row.execution_time == now
                            &&& row.success == true
                        })
                        &&& final(self).store.next_log_id == old(self).store.next_log_id + 1
                    })
                }))
                &&& (argon2_verifies(request.password@, u.password_hash@) && u.spec_is_locked(now)
                    ==> (r == Err::<LoginResponse, AuthError>(AuthError::AccountLocked)
                    && *final(self) == *old(self)))
                &&& (argon2_verifies(request.password@, u.password_hash@) && !u.spec_is_locked(now)
                    ==> ((r == Err::<LoginResponse, AuthError>(AuthError::TokenGenerationError)
                    && *final(self) == *old(self)) || (r matches Ok(resp) && {
                    &&& jwt_payload(old(self).jwt_secret@, resp.access_token@) == Some(
                        (
                            spec_u64_string(u.id),
                            (now + old(self).jwt_expiration) as u64,
                            now,
                            u.membership_tier@,
                            !u.mfa_enabled,
                        ),
                    )
                    &&& resp.refresh_token@.len() == 44
                    &&& resp.expires_at == (now + old(self).jwt_expiration) as u64
                    &&& resp.user == u.spec_public()
                    &&& final(self).store.users@ == users_after_successful_login(
                        users0,
                        u.id,
                        now,
                    )
                    &&& final(self).store.sessions@ == old(self).store.sessions@.push(
                        UserSession {
                            id: old(self).store.next_session_id,
                            user_id: u.id,
                            session_token: resp.access_token,
                            refresh_token: Some(resp.refresh_token),
                            expires_at: resp.expires_at,
                            refresh_expires_at: None,
                            ip_address: ip_address,
                            user_agent: user_agent,
                            device_fingerprint: None,
                            created_at: now,
                            last_used_at: now,
                            is_active: true,
                        },
                    )
                    &&& final(self).store.next_session_id == old(self).store.next_session_id + 1
                    &&& final(self).store.events@ == old(self).store.events@.push(
                        spec_event(
                            old(self).store.next_event_id,
                            Some(u.id),
                            EventType::LoginSuccess,
                            ip_address,
                            user_agent,
                            None,
                            now,
                        ),
                    )
                    &&& final(self).store.next_event_id == old(self).store.next_event_id + 1
                    &&& final(self).store.destruction_logs == old(self).store.destruction_logs
                    &&& final(self).store.subscriptions == old(self).store.subscriptions
                    &&& final(self).store.next_user_id == old(self).store.next_user_id
                    &&& final(self).store.next_log_id == old(self).store.next_log_id
                })))
            }),
    {
        let idx = match self.store.find_index_by_email(request.email.as_str()) {
            Some(i) => i,
            None => {
                return Err(AuthError::UserNotFound);
            },
        };
        proof {
            lemma_user_idx_by_email(self.store.users@, request.email@, idx as int);
        }
        let user = self.store.users[idx].duplicate();

        if !crypto::verify_password(request.password.as_str(), user.password_hash.as_str()) {
            proof {
                lemma_user_idx_by_id(self.store.users@, user.id, idx as int);
            }
            let outcome = self.increment_failed_attempts(user.id, ip_address, now);
            match outcome {
                Err(e) => {
                    return Err(e);
                },
                Ok(_) => {
                    return Err(AuthError::InvalidCredentials);
                },
            }
        }

        // Re-check the lockout window: a concurrent failed attempt
        // could have locked the account after the row was loaded.
        if user.is_locked(now) {
            return Err(AuthError::AccountLocked);
        }

        let access_token = match self.generate_access_token(&user, now) {
            Ok(t) => t,
            Err(e) => {
                return Err(e);
            },
        };
        let refresh_token = match crypto::generate_secure_token() {
            Some(t) => t,
            None => {
                return Err(AuthError::TokenGenerationError);
            },
        };
        let expires_at = now + self.jwt_expiration;

        let session = UserSession {
            id: self.store.next_session_id,
            user_id: user.id,
            session_token: access_token.clone(),
            refresh_token: Some(refresh_token.clone()),
            expires_at: expires_at,
            refresh_expires_at: None,
            ip_address: clone_opt_string(&ip_address),
            user_agent: clone_opt_string(&user_agent),
            device_fingerprint: None,
            created_at: now,
            last_used_at: now,
            is_active: true,
        };
        self.store.sessions.push(session);
        self.store.next_session_id = self.store.next_session_id + 1;

        let updated = User {
            last_login: Some(now),
            failed_login_attempts: 0,
            ..self.store.users[idx].duplicate()
        };
        proof {
            lemma_user_updated(self.store.users@, idx as int, updated, self.store.next_user_id);
            lemma_user_idx_by_id(self.store.users@, user.id, idx as int);
        }
        self.store.users.set(idx, updated);

        self.security_service.log_security_event(
            &mut self.store,
            Some(user.id),
            EventType::LoginSuccess,
            ip_address,
            user_agent,
            None,
            now,
        );

        Ok(LoginResponse {
            access_token,
            refresh_token,
            user: user.to_public(),
            expires_at,
        })
    }

    /// Validates a bearer token at time `now`: a token passes exactly
    /// when it is signed with the service's secret and its expiry
    /// lies strictly in the future. Any signature, shape, or expiry
    /// failure collapses to the single `InvalidToken` error.
    pub fn verify_token(&self, token: &str, now: u64) -> (r: Result<Claims, AuthError>)
        ensures
            jwt_payload(self.jwt_secret@, token@) is None ==> r == Err::<Claims, AuthError>(
                AuthError::InvalidToken,
            ),
            jwt_payload(self.jwt_secret@, token@) matches Some(p) ==> {
                &&& (p.1 > now ==> (r matches Ok(c) && c.sub@ == p.0 && c.exp == p.1 && c.iat == p.2
                    && c.membership_tier@ == p.3 && c.mfa_verified == p.4))
                &&& (p.1 <= now ==> r == Err::<Claims, AuthError>(AuthError::InvalidToken))
            },
    {
        match crypto::decode_token(self.jwt_secret.as_str(), token) {
            Ok(claims) => {
                if claims.exp > now {
                    Ok(claims)
                } else {
                    Err(AuthError::InvalidToken)
                }
            },
            Err(_) => Err(AuthError::InvalidToken),
        }
    }
}

} // verus!
