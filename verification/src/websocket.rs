//! Errors of the real-time messaging gateway.

use vstd::prelude::*;
use crate::auth::AuthError;

verus! {

/// Failures of a websocket connection.
#[derive(Clone, Copy, Debug, PartialEq, Eq, Structural)]
pub enum WebSocketError {
    /// The bearer token on the connection did not authenticate.
    AuthError(AuthError),
    /// A frame could not be parsed.
    ParseError,
}

} // verus!
