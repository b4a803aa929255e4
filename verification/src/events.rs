//! Security audit records: the append-only event trail and the
//! write-ahead destruction log.

use vstd::prelude::*;

verus! {

/// The closed enumeration of security-relevant event kinds.
#[derive(Clone, Copy, Debug, PartialEq, Eq, Structural)]
pub enum EventType {
    LoginFailed,
    LoginSuccess,
    UserRegistered,
    PasswordReset,
    DestructionTriggered,
    SuspiciousActivity,
    MultipleFailedLogins,
    AccountLocked,
    Other,
}

/// One append-only audit row. Events may be system-wide, in which
/// case `user_id` is `None`.
pub struct SecurityEvent {
    pub id: u64,
    pub user_id: Option<u64>,
    pub event_type: EventType,
    pub ip_address: Option<String>,
    pub user_agent: Option<String>,
    /// Numeric detail of the event; for failed logins, the new value
    /// of the failed-attempt counter.
    pub details: Option<u64>,
    /// Severity from 1 to 10, derived from the event type.
    pub risk_level: i32,
    pub created_at: u64,
}

impl SecurityEvent {
    /// An exact copy of the record.
    pub fn duplicate(&self) -> (r: SecurityEvent)
        ensures
            r == *self,
    {
        SecurityEvent {
            id: self.id,
            user_id: self.user_id,
            event_type: self.event_type,
            ip_address: crate::strutil::clone_opt_string(&self.ip_address),
            user_agent: crate::strutil::clone_opt_string(&self.user_agent),
            details: self.details,
            risk_level: self.risk_level,
            created_at: self.created_at,
        }
    }
}

/// A category of data erased by an account destruction.
#[derive(Clone, Copy, Debug, PartialEq, Eq, Structural)]
pub enum DataCategory {
    UserData,
    Sessions,
    Files,
}

/// Write-ahead audit row of one destruction, written before the
/// destructive steps execute.
pub struct DestructionLog {
    pub id: u64,
    pub user_id: Option<u64>,
    pub trigger_type: String,
    pub data_types_destroyed: Vec<DataCategory>,
    pub execution_time: u64,
    pub success: bool,
    /// Qualitative indicator of how completely data was removed.
    pub forensic_residue_level: i32,
    pub details: Option<String>,
}

} // verus!
