//! Request and response shapes of the file vault endpoints.

use vstd::prelude::*;

verus! {

/// Pagination of a file listing.
#[derive(Clone, Copy, Debug)]
pub struct FileListQuery {
    pub limit: Option<u32>,
    pub offset: Option<u32>,
}

/// Asks for a one-time upload token.
#[derive(Clone, Debug)]
pub struct CreateUploadTokenRequest {
    pub filename: String,
    pub content_type: String,
    pub size: u64,
    pub conversation_id: Option<String>,
    pub expires_in_hours: Option<u32>,
    pub access_level: Option<String>,
}

/// A granted one-time upload token.
#[derive(Clone, Debug)]
pub struct CreateUploadTokenResponse {
    pub token: String,
    pub file_id: String,
    pub upload_url: String,
    pub expires_at: String,
}

/// One stored file as listed to a client.
#[derive(Clone, Debug)]
pub struct FileInfo {
    pub id: String,
    pub name: String,
    pub size: u64,
    pub created_at: String,
    pub file_type: String,
}

/// One page of a user's files.
#[derive(Clone, Debug)]
pub struct FileListResponse {
    pub files: Vec<FileInfo>,
    pub total: u32,
    pub limit: u32,
    pub offset: u32,
}

} // verus!
