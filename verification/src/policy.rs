//! Security policy thresholds of the authentication engine.

use vstd::prelude::*;

verus! {

/// Number of consecutive failed login attempts at which the account is
/// locked for a cooling-off window.
pub const LOCK_THRESHOLD: u32 = 3;

/// Length of the lockout window, in seconds (15 minutes).
pub const LOCK_DURATION_SECS: u64 = 900;

/// Number of consecutive failed login attempts at which the account is
/// irreversibly destroyed.
pub const DESTRUCTION_THRESHOLD: u32 = 5;

/// Lifetime of the short-lived marker returned by login initiation,
/// in seconds (5 minutes).
pub const LOGIN_STEP_WINDOW_SECS: u64 = 300;

} // verus!
