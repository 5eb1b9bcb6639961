//! Plain data that crosses the service's boundaries.

use vstd::prelude::*;

verus! {

/// A registered user. The identifier is held in its text form and moments
/// as seconds since the epoch.
#[derive(Clone, Debug, PartialEq, Eq)]
pub struct User {
    pub id: String,
    pub email: String,
    pub password_hash: String,
    pub created_at: i64,
    pub updated_at: i64,
}

/// A stored transcript. The duration is held in milliseconds.
#[derive(Clone, Debug, PartialEq, Eq)]
pub struct Transcript {
    pub id: String,
    pub user_id: String,
    pub filename: String,
    pub transcription: String,
    pub file_size: i64,
    pub duration_millis: Option<u64>,
    pub created_at: i64,
}

/// A registration request.
#[derive(Clone, Debug, PartialEq, Eq)]
pub struct RegisterRequest {
    pub email: String,
    pub password: String,
}

/// A login request.
#[derive(Clone, Debug, PartialEq, Eq)]
pub struct LoginRequest {
    pub email: String,
    pub password: String,
}

/// A request for a new access token.
#[derive(Clone, Debug, PartialEq, Eq)]
pub struct RefreshTokenRequest {
    pub refresh_token: String,
}

/// A user as shown to clients: without the password hash.
#[derive(Clone, Debug, PartialEq, Eq)]
pub struct UserResponse {
    pub id: String,
    pub email: String,
    pub created_at: i64,
}

/// The answer to a successful registration, login or refresh.
#[derive(Clone, Debug, PartialEq, Eq)]
pub struct AuthResponse {
    pub access_token: String,
    pub refresh_token: String,
    pub token_type: String,
    pub expires_in: i64,
    pub user: UserResponse,
}

/// A transcript as shown to clients: without its owner.
#[derive(Clone, Debug, PartialEq, Eq)]
pub struct TranscriptResponse {
    pub id: String,
    pub filename: String,
    pub transcription: String,
    pub file_size: i64,
    pub duration_millis: Option<u64>,
    pub created_at: i64,
}

/// One page of a listing.
#[derive(Clone, Debug, PartialEq, Eq)]
pub struct PaginatedResponse<T> {
    pub data: Vec<T>,
    pub page: i64,
    pub limit: i64,
    pub total: i64,
    pub total_pages: i64,
}

/// The claims of a token.
#[derive(Clone, Debug, PartialEq, Eq)]
pub struct Claims {
    /// The user's identifier.
    pub sub: String,
    pub email: String,
    /// Issued at, in seconds since the epoch.
    pub iat: i64,
    /// Expires at, in seconds since the epoch.
    pub exp: i64,
    /// `access` or `refresh`.
    pub token_type: String,
}

/// An uploaded file.
#[derive(Clone, Debug, PartialEq, Eq)]
pub struct FileUpload {
    /// The name that the user gave the file. It is shown and stored, and
    /// never made part of a path.
    pub filename: String,
    pub content_type: String,
    pub size: usize,
    pub data: Vec<u8>,
}

impl UserResponse {
    /// Shows a user without the password hash.
    pub fn from(user: User) -> (shown: UserResponse)
        ensures
            shown.id == user.id,
            shown.email == user.email,
            shown.created_at == user.created_at,
    {
        UserResponse { id: user.id, email: user.email, created_at: user.created_at }
    }
}

impl TranscriptResponse {
    /// Shows a transcript without its owner.
    pub fn from(transcript: Transcript) -> (shown: TranscriptResponse)
        ensures
            shown.id == transcript.id,
            shown.filename == transcript.filename,
            shown.transcription == transcript.transcription,
            shown.file_size == transcript.file_size,
            shown.duration_millis == transcript.duration_millis,
            shown.created_at == transcript.created_at,
    {
        TranscriptResponse {
            id: transcript.id,
            filename: transcript.filename,
            transcription: transcript.transcription,
            file_size: transcript.file_size,
            duration_millis: transcript.duration_millis,
            created_at: transcript.created_at,
        }
    }
}

impl FileUpload {
    /// The recorded size is that of the data.
    pub open spec fn well_formed(self) -> bool {
        self.size == self.data@.len()
    }

    /// An upload as received: the size is that of the data.
    pub fn new(filename: String, content_type: String, data: Vec<u8>) -> (upload: FileUpload)
        ensures
            upload.well_formed(),
            upload.filename == filename,
            upload.content_type == content_type,
            upload.data == data,
            upload.size == data@.len(),
    {
        let size: usize = data.len();
        FileUpload { filename, content_type, size, data }
    }
}

} // verus!
