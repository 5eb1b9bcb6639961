//! The decisions of the services: what the transcription pipeline computes
//! between its reads and writes, and what the answers of the store mean.

use vstd::prelude::*;
use crate::audio::constraints::AudioConstraints;
use crate::audio::samples::PcmSampleBuffer;
use crate::controllers::upload_accepted;
use crate::errors::{AppError, AppResult};
use crate::models::{Claims, FileUpload};
use crate::pipeline::failure::PipelineError;
use crate::pipeline::normalizer::{
    converter_argument_texts, converter_arguments, interpret_outcome, ConversionOutcome,
};
use crate::pipeline::scratch::{is_identifier, scratch_path_text, ScratchFile};
use crate::pipeline::stages::{prepare_samples, prepared};
use crate::pipeline::transcript::{assemble, joined, TranscriptionResult};
use crate::text::texts;
use crate::utils::jwt::require_token_type;

verus! {

/// Transcription service for handling audio transcription
pub struct TranscriptionService;

/// User service for authentication and user management
pub struct UserService;

/// What is handed to the store after a successful run.
#[derive(Clone, Debug, PartialEq, Eq)]
pub struct NewTranscript {
    /// The name that the upload is shown under.
    pub filename: String,
    /// The transcript.
    pub transcription: String,
    /// Size of the upload in bytes.
    pub file_size: i64,
    /// Duration of the audio in milliseconds, if known.
    pub duration_millis: Option<u64>,
}

/// The size of an upload as the store holds it: sizes beyond the store's
/// range are held as the largest size.
pub open spec fn stored_size(size: int) -> int {
    if size > i64::MAX {
        i64::MAX as int
    } else {
        size
    }
}

/// What is handed to the store for a run: for a successful one the upload's
/// own name, the transcript, the stored size and the duration; for a failed
/// one nothing.
pub open spec fn recorded(
    upload: FileUpload,
    outcome: Result<TranscriptionResult, PipelineError>,
    duration_millis: Option<u64>,
    record: Option<NewTranscript>,
) -> bool {
    match outcome {
        Ok(result) => record matches Some(r) && r.filename@ == upload.filename@
            && r.transcription@ == result.text@ && r.file_size == stored_size(upload.size as int)
            && r.duration_millis == duration_millis,
        Err(_) => record.is_none(),
    }
}

/// The offset of a page in a listing.
pub open spec fn offset_of(page: int, limit: int) -> int {
    (page - 1) * limit
}

impl TranscriptionService {
    /// Allocates the scratch input of a run.
    pub fn scratch_input(temp_dir: &str) -> (file: ScratchFile)
        ensures
            exists|id: Seq<char>|
                is_identifier(id) && file.path@ == #[trigger] scratch_path_text(
                    temp_dir@,
                    "upload-"@,
                    id,
                    ".bin"@,
                ),
    {
        ScratchFile::allocate(temp_dir, "upload-", ".bin")
    }

    /// Allocates the scratch output of a run, which the converter writes.
    pub fn scratch_output(temp_dir: &str) -> (file: ScratchFile)
        ensures
            exists|id: Seq<char>|
                is_identifier(id) && file.path@ == #[trigger] scratch_path_text(
                    temp_dir@,
                    "normalized-"@,
                    id,
                    ".wav"@,
                ),
    {
        ScratchFile::allocate(temp_dir, "normalized-", ".wav")
    }

    /// The converter's command line for a run's scratch files.
    pub fn conversion_arguments(input: &ScratchFile, output: &ScratchFile) -> (arguments: Vec<
        String,
    >)
        ensures
            texts(arguments@) == converter_argument_texts(input.path@, output.path@),
    {
        converter_arguments(input.path.as_str(), output.path.as_str())
    }

    /// Reads the converter's outcome as a stage result.
    pub fn conversion_result(outcome: ConversionOutcome) -> (converted: Result<(), PipelineError>)
        ensures
            match outcome {
                ConversionOutcome::LaunchFailed(reason) => converted == Err::<(), PipelineError>(
                    PipelineError::ToolUnavailable(reason),
                ),
                ConversionOutcome::Exited { success, stderr } => if success {
                    converted.is_ok()
                } else {
                    converted == Err::<(), PipelineError>(PipelineError::Conversion(stderr))
                },
            },
    {
        match interpret_outcome(outcome) {
            Ok(_) => Ok(()),
            Err(e) => Err(PipelineError::from_normalize(e)),
        }
    }

    /// Loads the samples of a normalized container and checks their duration.
    pub fn load_wav_audio_samples(audio_bytes: &[u8], limits: &AudioConstraints) -> (samples:
        Result<PcmSampleBuffer, PipelineError>)
        ensures
            match samples {
                Ok(buffer) => prepared(audio_bytes@, *limits) == Ok::<Seq<i16>, PipelineError>(
                    buffer.samples@,
                ) && buffer.well_formed(),
                Err(e) => prepared(audio_bytes@, *limits) == Err::<Seq<i16>, PipelineError>(e),
            },
    {
        prepare_samples(audio_bytes, limits)
    }

    /// Assembles the transcript from the segments of a finished session.
    pub fn assemble_transcript(segments: &Vec<String>) -> (result: TranscriptionResult)
        ensures
            result.text@ == joined(texts(segments@)),
            result.segment_count == segments@.len(),
            result.char_len == result.text@.len(),
    {
        assemble(segments)
    }

    /// Decides what is handed to the store: the record of a successful run,
    /// and nothing for a failed one.
    pub fn record_for(
        upload: &FileUpload,
        outcome: &Result<TranscriptionResult, PipelineError>,
        duration_millis: Option<u64>,
    ) -> (record: Option<NewTranscript>)
        ensures
            recorded(*upload, *outcome, duration_millis, record),
    {
        match outcome {
            Ok(result) => {
                let file_size: i64 = if upload.size as u64 > i64::MAX as u64 {
                    i64::MAX
                } else {
                    upload.size as i64
                };
                Some(
                    NewTranscript {
                        filename: String::from_str(upload.filename.as_str()),
                        transcription: String::from_str(result.text.as_str()),
                        file_size,
                        duration_millis,
                    },
                )
            },
            Err(_) => None,
        }
    }

    /// The offset of a page in a listing; nothing if it cannot be held.
    pub fn page_offset(page: i64, limit: i64) -> (offset: Option<i64>)
        ensures
            match offset {
                Some(o) => o == offset_of(page as int, limit as int),
                None => offset_of(page as int, limit as int) > i64::MAX || offset_of(
                    page as int,
                    limit as int,
                ) < i64::MIN,
            },
    {
        if page == i64::MIN {
            // The page before the smallest one cannot be held; only a limit
            // of zero brings the product back into range.
            if limit == 0 {
                Some(0)
            } else {
                proof {
                    let before = page as int - 1;
                    let l = limit as int;
                    assert(before * l < i64::MIN || before * l > i64::MAX) by (nonlinear_arith)
                        requires
                            before == i64::MIN - 1,
                            l != 0,
                    ;
                }
                None
            }
        } else {
            (page - 1).checked_mul(limit)
        }
    }

    /// A transcript that was looked up must have been found.
    pub fn require_found<T>(found: Option<T>) -> (required: AppResult<T>)
        ensures
            match found {
                Some(t) => required == Ok::<T, AppError>(t),
                None => required matches Err(AppError::NotFound(m)) && m@
                    == "Transcript not found"@,
            },
    {
        match found {
            Some(t) => Ok(t),
            None => Err(AppError::NotFound(String::from_str("Transcript not found"))),
        }
    }

    /// A deletion must have removed a row.
    pub fn deletion_result(rows_affected: u64) -> (deleted: AppResult<()>)
        ensures
            rows_affected > 0 ==> deleted.is_ok(),
            rows_affected == 0 ==> (deleted matches Err(AppError::NotFound(m)) && m@
                == "Transcript not found"@),
    {
        if rows_affected == 0 {
            return Err(AppError::NotFound(String::from_str("Transcript not found")));
        }
        Ok(())
    }
}

impl UserService {
    /// An email can be registered only once.
    pub fn require_unregistered(exists: bool) -> (free: AppResult<()>)
        ensures
            !exists ==> free.is_ok(),
            exists ==> (free matches Err(AppError::ValidationError(m)) && m@
                == "User with this email already exists"@),
    {
        if exists {
            return Err(
                AppError::ValidationError(String::from_str("User with this email already exists")),
            );
        }
        Ok(())
    }

    /// A login needs a user with that email.
    pub fn require_known<T>(user: Option<T>) -> (known: AppResult<T>)
        ensures
            match user {
                Some(u) => known == Ok::<T, AppError>(u),
                None => known matches Err(AppError::AuthError(m)) && m@
                    == "Invalid email or password"@,
            },
    {
        match user {
            Some(u) => Ok(u),
            None => Err(AppError::AuthError(String::from_str("Invalid email or password"))),
        }
    }

    /// A login needs the password to match.
    pub fn require_password(matches: bool) -> (accepted: AppResult<()>)
        ensures
            matches ==> accepted.is_ok(),
            !matches ==> (accepted matches Err(AppError::AuthError(m)) && m@
                == "Invalid email or password"@),
    {
        if !matches {
            return Err(AppError::AuthError(String::from_str("Invalid email or password")));
        }
        Ok(())
    }

    /// A user that was looked up by identifier must exist.
    pub fn require_existing<T>(user: Option<T>) -> (existing: AppResult<T>)
        ensures
            match user {
                Some(u) => existing == Ok::<T, AppError>(u),
                None => existing matches Err(AppError::NotFound(m)) && m@ == "User not found"@,
            },
    {
        match user {
            Some(u) => Ok(u),
            None => Err(AppError::NotFound(String::from_str("User not found"))),
        }
    }

    /// Verify the claims of a decoded token as those of a refresh token.
    pub fn verify_refresh_token(claims: Claims) -> (verified: AppResult<Claims>)
        ensures
            claims.token_type@ == "refresh"@ ==> verified == Ok::<Claims, AppError>(claims),
            claims.token_type@ != "refresh"@ ==> (verified matches Err(AppError::AuthError(m))
                && m@ == "Invalid token type"@),
    {
        match require_token_type(&claims, "refresh") {
            Ok(_) => Ok(claims),
            Err(e) => Err(e),
        }
    }
}

/// The store is handed what the user sent: for an upload that was accepted
/// under the name `name` and transcribed with success, the record carries
/// that very name, the transcript, the size of the data and the duration.
pub proof fn lemma_store_gets_the_users_name(
    name: Seq<char>,
    declared_content_type: Option<Seq<char>>,
    data: Seq<u8>,
    max_file_size: int,
    upload: FileUpload,
    result: TranscriptionResult,
    duration_millis: Option<u64>,
    record: Option<NewTranscript>,
)
    requires
        upload_accepted(
            Some(name),
            declared_content_type,
            data,
            max_file_size,
            Ok::<FileUpload, AppError>(upload),
        ),
        recorded(
            upload,
            Ok::<TranscriptionResult, PipelineError>(result),
            duration_millis,
            record,
        ),
    ensures
        record matches Some(r) && r.filename@ == name && r.transcription@ == result.text@
            && r.file_size == stored_size(data.len() as int) && r.duration_millis
            == duration_millis,
{
}

} // verus!
