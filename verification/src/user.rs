//! User identity records and the request shapes that create and
//! update them. Timestamps are epoch seconds.

use vstd::prelude::*;
use crate::policy::DESTRUCTION_THRESHOLD;

verus! {

/// Identity record of one account holder.
pub struct User {
    pub id: u64,
    pub email: String,
    /// Opaque salted hash string produced by the credential hasher.
    pub password_hash: String,
    pub membership_tier: String,
    pub created_at: u64,
    pub last_login: Option<u64>,
    /// Consecutive failed login attempts since the last success.
    pub failed_login_attempts: u32,
    /// End of the current lockout window, if one is set.
    pub account_locked_until: Option<u64>,
    pub mfa_enabled: bool,
    pub email_verified: bool,
    /// Opaque token mailed out for email verification.
    pub email_verification_token: String,
    /// Opaque token mailed out for a password reset, with its expiry.
    pub password_reset_token: Option<String>,
    pub password_reset_expires: Option<u64>,
}

/// The part of a user record that is safe to hand to callers.
pub struct UserPublic {
    pub id: u64,
    pub email: String,
    pub membership_tier: String,
    pub created_at: u64,
    pub last_login: Option<u64>,
    pub mfa_enabled: bool,
    pub email_verified: bool,
}

/// Registration request.
pub struct CreateUserRequest {
    pub email: String,
    pub password: String,
    pub membership_tier: Option<String>,
}

/// Login completion request.
pub struct LoginRequest {
    pub email: String,
    pub password: String,
}

/// Profile update request.
pub struct UpdateUserRequest {
    pub membership_tier: Option<String>,
    pub mfa_enabled: Option<bool>,
}

impl User {
    /// Whether the account is inside a lockout window at time `now`.
    pub open spec fn spec_is_locked(self, now: u64) -> bool {
        match self.account_locked_until {
            Some(t) => t > now,
            None => false,
        }
    }

    pub fn is_locked(&self, now: u64) -> (r: bool)
        ensures
            r == self.spec_is_locked(now),
    {
        match self.account_locked_until {
            Some(t) => t > now,
            None => false,
        }
    }

    /// Whether the failed-attempt counter has reached the destruction
    /// threshold.
    pub fn should_trigger_destruction(&self) -> (r: bool)
        ensures
            r == (self.failed_login_attempts >= DESTRUCTION_THRESHOLD),
    {
        self.failed_login_attempts >= DESTRUCTION_THRESHOLD
    }

    /// The public projection of this record.
    pub open spec fn spec_public(self) -> UserPublic {
        UserPublic {
            id: self.id,
            email: self.email,
            membership_tier: self.membership_tier,
            created_at: self.created_at,
            last_login: self.last_login,
            mfa_enabled: self.mfa_enabled,
            email_verified: self.email_verified,
        }
    }

    pub fn to_public(&self) -> (r: UserPublic)
        ensures
            r == self.spec_public(),
    {
        UserPublic {
            id: self.id,
            email: self.email.clone(),
            membership_tier: self.membership_tier.clone(),
            created_at: self.created_at,
            last_login: self.last_login,
            mfa_enabled: self.mfa_enabled,
            email_verified: self.email_verified,
        }
    }

    /// An exact copy of the record.
    pub fn duplicate(&self) -> (r: User)
        ensures
            r == *self,
    {
        User {
            id: self.id,
            email: self.email.clone(),
            password_hash: self.password_hash.clone(),
            membership_tier: self.membership_tier.clone(),
            created_at: self.created_at,
            last_login: self.last_login,
            failed_login_attempts: self.failed_login_attempts,
            account_locked_until: self.account_locked_until,
            mfa_enabled: self.mfa_enabled,
            email_verified: self.email_verified,
            email_verification_token: self.email_verification_token.clone(),
            password_reset_token: crate::strutil::clone_opt_string(&self.password_reset_token),
            password_reset_expires: self.password_reset_expires,
        }
    }
}

} // verus!
