//! Session records: one row per authenticated login.

use vstd::prelude::*;
use crate::strutil::clone_opt_string;

verus! {

/// One authenticated login. Created on successful login completion;
/// removed en masse when the owning account is destroyed.
pub struct UserSession {
    pub id: u64,
    pub user_id: u64,
    /// The structured, signed access token handed to the client.
    pub session_token: String,
    /// The opaque refresh token, stored for exact-match lookup.
    pub refresh_token: Option<String>,
    pub expires_at: u64,
    pub refresh_expires_at: Option<u64>,
    pub ip_address: Option<String>,
    pub user_agent: Option<String>,
    pub device_fingerprint: Option<String>,
    pub created_at: u64,
    pub last_used_at: u64,
    pub is_active: bool,
}

impl UserSession {
    /// An exact copy of the record.
    pub fn duplicate(&self) -> (r: UserSession)
        ensures
            r == *self,
    {
        UserSession {
            id: self.id,
            user_id: self.user_id,
            session_token: self.session_token.clone(),
            refresh_token: clone_opt_string(&self.refresh_token),
            expires_at: self.expires_at,
            refresh_expires_at: self.refresh_expires_at,
            ip_address: clone_opt_string(&self.ip_address),
            user_agent: clone_opt_string(&self.user_agent),
            device_fingerprint: clone_opt_string(&self.device_fingerprint),
            created_at: self.created_at,
            last_used_at: self.last_used_at,
            is_active: self.is_active,
        }
    }
}

} // verus!
