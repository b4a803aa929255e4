//! Request and response shapes of the messaging and presence
//! endpoints.

use vstd::prelude::*;

verus! {

/// Adds participants to a conversation by email.
#[derive(Clone, Debug)]
pub struct AddParticipantRequest {
    pub participant_emails: Vec<String>,
}

/// Removes one participant from a conversation by email.
#[derive(Clone, Debug)]
pub struct RemoveParticipantRequest {
    pub participant_email: String,
}

/// An invite link with its expiry.
#[derive(Clone, Debug)]
pub struct InviteResponse {
    pub invite_link: String,
    pub expires_at: String,
}

/// One conversation as listed to a client.
#[derive(Clone, Debug)]
pub struct ConversationResponse {
    pub id: String,
    pub name: Option<String>,
    pub conversation_type: String,
    pub participants: Vec<String>,
    pub created_at: String,
}

/// The conversations of one user.
#[derive(Clone, Debug)]
pub struct ConversationListResponse {
    pub conversations: Vec<ConversationResponse>,
}

/// Updates a user's presence status.
#[derive(Clone, Debug)]
pub struct UpdatePresenceRequest {
    pub status: String,
    pub custom_status: Option<String>,
}

} // verus!
