//! The service's error type: what each error says and how it is answered.

use vstd::prelude::*;
use crate::pipeline::failure::{fault_of, Fault, PipelineError};

verus! {

/// Any failure that a request can end in. Failures of outside systems are
/// held by their text.
#[derive(Clone, Debug, PartialEq, Eq)]
pub enum AppError {
    DatabaseError(String),
    JwtError(String),
    ArgonError(String),
    IoError(String),
    ConfigError(String),
    AuthError(String),
    ValidationError(String),
    NotFound(String),
    BadRequest(String),
    InternalError(String),
    WhisperError(String),
    FileError(String),
    Unauthorized,
    Forbidden,
}

/// Result with the service's error type.
pub type AppResult<T> = Result<T, AppError>;

/// The HTTP status that answers an error.
pub open spec fn status_of(error: AppError) -> u16 {
    match error {
        AppError::AuthError(_) | AppError::Unauthorized => 401,
        AppError::ValidationError(_) | AppError::BadRequest(_) => 400,
        AppError::NotFound(_) => 404,
        AppError::Forbidden => 403,
        _ => 500,
    }
}

/// The short name of the status that answers an error.
pub open spec fn label_of(error: AppError) -> Seq<char> {
    match error {
        AppError::AuthError(_) | AppError::Unauthorized => "Unauthorized"@,
        AppError::ValidationError(_) | AppError::BadRequest(_) => "Bad Request"@,
        AppError::NotFound(_) => "Not Found"@,
        AppError::Forbidden => "Forbidden"@,
        _ => "Internal Server Error"@,
    }
}

/// The text that an error shows.
pub open spec fn message_of(error: AppError) -> Seq<char> {
    match error {
        AppError::DatabaseError(m) => "Database error: "@ + m@,
        AppError::JwtError(m) => "JWT error: "@ + m@,
        AppError::ArgonError(m) => "Password hashing error: "@ + m@,
        AppError::IoError(m) => "IO error: "@ + m@,
        AppError::ConfigError(m) => "Configuration error: "@ + m@,
        AppError::AuthError(m) => "Authentication error: "@ + m@,
        AppError::ValidationError(m) => "Validation error: "@ + m@,
        AppError::NotFound(m) => "Not found: "@ + m@,
        AppError::BadRequest(m) => "Bad request: "@ + m@,
        AppError::InternalError(m) => "Internal server error: "@ + m@,
        AppError::WhisperError(m) => "Whisper transcription error: "@ + m@,
        AppError::FileError(m) => "File processing error: "@ + m@,
        AppError::Unauthorized => "Unauthorized access"@,
        AppError::Forbidden => "Forbidden access"@,
    }
}

/// The detail that a pipeline failure is surfaced with.
pub open spec fn surfaced_detail(error: PipelineError) -> Seq<char> {
    match error {
        PipelineError::ScratchWrite(m) => "Failed to write temporary file: "@ + m@,
        PipelineError::ToolUnavailable(m) => "Failed to run FFmpeg: "@ + m@,
        PipelineError::Conversion(m) => "FFmpeg conversion failed: "@ + m@,
        PipelineError::ScratchRead(m) => "Failed to read WAV file: "@ + m@,
        PipelineError::MalformedContainer => "Invalid WAV file"@,
        PipelineError::NoDataChunk => "No data chunk found in WAV file"@,
        PipelineError::MisalignedSampleData => "Misaligned sample data in WAV file"@,
        PipelineError::EmptySampleBuffer => "No audio data found in WAV file"@,
        PipelineError::DurationTooShort => "Audio is shorter than the minimum duration"@,
        PipelineError::DurationTooLong => "Audio is longer than the maximum duration"@,
        PipelineError::SessionCreation(m) => "Failed to create Whisper state: "@ + m@,
        PipelineError::Inference(m) => "Whisper transcription failed: "@ + m@,
        PipelineError::WorkerPanic(m) => "Transcription task failed: "@ + m@,
    }
}

/// A pipeline failure as the service surfaces it: input errors as
/// validation errors, scratch and converter faults as file errors, model
/// faults as recognition errors.
pub open spec fn surfaces_as(error: PipelineError, surfaced: AppError) -> bool {
    match error {
        PipelineError::Conversion(_)
        | PipelineError::MalformedContainer
        | PipelineError::NoDataChunk
        | PipelineError::MisalignedSampleData
        | PipelineError::EmptySampleBuffer
        | PipelineError::DurationTooShort
        | PipelineError::DurationTooLong => surfaced matches AppError::ValidationError(m)
            && m@ == surfaced_detail(error),
        PipelineError::ScratchWrite(_)
        | PipelineError::ToolUnavailable(_)
        | PipelineError::ScratchRead(_) => surfaced matches AppError::FileError(m) && m@
            == surfaced_detail(error),
        PipelineError::SessionCreation(_)
        | PipelineError::Inference(_)
        | PipelineError::WorkerPanic(_) => surfaced matches AppError::WhisperError(m) && m@
            == surfaced_detail(error),
    }
}

/// A fixed text followed by a detail.
fn prefixed(prefix: &str, detail: &str) -> (text: String)
    ensures
        text@ == prefix@ + detail@,
{
    String::from_str(prefix).concat(detail)
}

impl AppError {
    /// The HTTP status that answers this error.
    pub fn status_code(&self) -> (status: u16)
        ensures
            status == status_of(*self),
    {
        match self {
            AppError::AuthError(_) | AppError::Unauthorized => 401,
            AppError::ValidationError(_) | AppError::BadRequest(_) => 400,
            AppError::NotFound(_) => 404,
            AppError::Forbidden => 403,
            _ => 500,
        }
    }

    /// The short name of that status.
    pub fn error_label(&self) -> (label: String)
        ensures
            label@ == label_of(*self),
    {
        match self {
            AppError::AuthError(_) | AppError::Unauthorized => String::from_str("Unauthorized"),
            AppError::ValidationError(_) | AppError::BadRequest(_) => String::from_str(
                "Bad Request",
            ),
            AppError::NotFound(_) => String::from_str("Not Found"),
            AppError::Forbidden => String::from_str("Forbidden"),
            _ => String::from_str("Internal Server Error"),
        }
    }

    /// Whether the answer is logged as an internal server error.
    pub fn is_internal(&self) -> (internal: bool)
        ensures
            internal == (status_of(*self) == 500),
    {
        self.status_code() == 500
    }

    /// The text that this error shows.
    pub fn message(&self) -> (text: String)
        ensures
            text@ == message_of(*self),
    {
        match self {
            AppError::DatabaseError(m) => prefixed("Database error: ", m.as_str()),
            AppError::JwtError(m) => prefixed("JWT error: ", m.as_str()),
            AppError::ArgonError(m) => prefixed("Password hashing error: ", m.as_str()),
            AppError::IoError(m) => prefixed("IO error: ", m.as_str()),
            AppError::ConfigError(m) => prefixed("Configuration error: ", m.as_str()),
            AppError::AuthError(m) => prefixed("Authentication error: ", m.as_str()),
            AppError::ValidationError(m) => prefixed("Validation error: ", m.as_str()),
            AppError::NotFound(m) => prefixed("Not found: ", m.as_str()),
            AppError::BadRequest(m) => prefixed("Bad request: ", m.as_str()),
            AppError::InternalError(m) => prefixed("Internal server error: ", m.as_str()),
            AppError::WhisperError(m) => prefixed("Whisper transcription error: ", m.as_str()),
            AppError::FileError(m) => prefixed("File processing error: ", m.as_str()),
            AppError::Unauthorized => String::from_str("Unauthorized access"),
            AppError::Forbidden => String::from_str("Forbidden access"),
        }
    }

    /// Surfaces a pipeline failure. The underlying diagnostic is kept in the
    /// text; no failure is replaced by a default transcript.
    pub fn from_pipeline(error: &PipelineError) -> (surfaced: AppError)
        ensures
            surfaces_as(*error, surfaced),
            status_of(surfaced) == 400 <==> fault_of(*error) == Fault::Client,
            status_of(surfaced) == 500 <==> fault_of(*error) == Fault::Server,
    {
        match error {
            PipelineError::ScratchWrite(m) => AppError::FileError(
                prefixed("Failed to write temporary file: ", m.as_str()),
            ),
            PipelineError::ToolUnavailable(m) => AppError::FileError(
                prefixed("Failed to run FFmpeg: ", m.as_str()),
            ),
            PipelineError::Conversion(m) => AppError::ValidationError(
                prefixed("FFmpeg conversion failed: ", m.as_str()),
            ),
            PipelineError::ScratchRead(m) => AppError::FileError(
                prefixed("Failed to read WAV file: ", m.as_str()),
            ),
            PipelineError::MalformedContainer => AppError::ValidationError(
                String::from_str("Invalid WAV file"),
            ),
            PipelineError::NoDataChunk => AppError::ValidationError(
                String::from_str("No data chunk found in WAV file"),
            ),
            PipelineError::MisalignedSampleData => AppError::ValidationError(
                String::from_str("Misaligned sample data in WAV file"),
            ),
            PipelineError::EmptySampleBuffer => AppError::ValidationError(
                String::from_str("No audio data found in WAV file"),
            ),
            PipelineError::DurationTooShort => AppError::ValidationError(
                String::from_str("Audio is shorter than the minimum duration"),
            ),
            PipelineError::DurationTooLong => AppError::ValidationError(
                String::from_str("Audio is longer than the maximum duration"),
            ),
            PipelineError::SessionCreation(m) => AppError::WhisperError(
                prefixed("Failed to create Whisper state: ", m.as_str()),
            ),
            PipelineError::Inference(m) => AppError::WhisperError(
                prefixed("Whisper transcription failed: ", m.as_str()),
            ),
            PipelineError::WorkerPanic(m) => AppError::WhisperError(
                prefixed("Transcription task failed: ", m.as_str()),
            ),
        }
    }
}

} // verus!
