//! The decisions of the request handlers: which upload is accepted, which
//! page of a listing is meant, what an answer holds.

use vstd::prelude::*;
use crate::errors::{AppError, AppResult};
use crate::models::FileUpload;
use crate::text::{
    extension_of, last_dot_part, last_dot_part_text, lowercase, lowercased, shown_extension,
    text_equals,
};
use crate::utils::file::oversize_text;

verus! {

/// Handlers for registration, login and token refresh.
pub struct AuthController;

/// Handler for the health check.
pub struct HealthController;

/// Handlers for uploads and stored transcripts.
pub struct TranscriptionController;

/// Query parameters for pagination.
#[derive(Clone, Copy, Debug)]
pub struct PaginationQuery {
    pub page: Option<i64>,
    pub limit: Option<i64>,
}

/// Page used when none is asked for.
pub const DEFAULT_PAGE: i64 = 1;

/// Page size used when none is asked for.
pub const DEFAULT_LIMIT: i64 = 10;

/// Largest page size.
pub const MAX_LIMIT: i64 = 100;

/// The extensions that an upload may have.
pub open spec fn is_upload_format(extension: Seq<char>) -> bool {
    ||| extension == "wav"@
    ||| extension == "mp3"@
    ||| extension == "m4a"@
    ||| extension == "flac"@
    ||| extension == "ogg"@
    ||| extension == "aac"@
    ||| extension == "wma"@
    ||| extension == "aiff"@
    ||| extension == "au"@
    ||| extension == "webm"@
    ||| extension == "opus"@
    ||| extension == "3gp"@
    ||| extension == "amr"@
}

/// The content type for a lowercase extension.
pub open spec fn content_type_text(extension: Seq<char>) -> Seq<char> {
    if extension == "mp3"@ {
        "audio/mpeg"@
    } else if extension == "wav"@ {
        "audio/wav"@
    } else if extension == "m4a"@ {
        "audio/mp4"@
    } else if extension == "flac"@ {
        "audio/flac"@
    } else if extension == "ogg"@ {
        "audio/ogg"@
    } else if extension == "aac"@ {
        "audio/aac"@
    } else if extension == "wma"@ {
        "audio/x-ms-wma"@
    } else if extension == "aiff"@ {
        "audio/aiff"@
    } else if extension == "webm"@ {
        "audio/webm"@
    } else if extension == "opus"@ {
        "audio/opus"@
    } else {
        "application/octet-stream"@
    }
}

/// The text that rejects an unsupported format.
pub open spec fn unsupported_format_text() -> Seq<char> {
    "Unsupported audio format. Supported formats: wav, mp3, m4a, flac, ogg, aac, wma, aiff, au"@
}

/// The page that a query means: the one asked for, the first by default,
/// never below the first.
pub open spec fn page_of(query: PaginationQuery) -> int {
    match query.page {
        Some(p) => if p < 1 {
            1
        } else {
            p as int
        },
        None => 1,
    }
}

/// The page size that a query means: the one asked for, 10 by default,
/// between 1 and 100.
pub open spec fn limit_of(query: PaginationQuery) -> int {
    match query.limit {
        Some(l) => if l < 1 {
            1
        } else if l > 100 {
            100
        } else {
            l as int
        },
        None => 10,
    }
}

/// Pages needed for `total` entries, `limit` to a page.
pub open spec fn pages_for(total: int, limit: int) -> int {
    (total + limit - 1) / limit
}

/// Whether a name is that of an upload that may be transcribed: it shows an
/// extension, and the extension in lowercase is on the list. A name without
/// a dot shows no extension.
pub open spec fn is_upload_name(name: Seq<char>) -> bool {
    match shown_extension(name) {
        Some(extension) => is_upload_format(lowercased(extension)),
        None => false,
    }
}

/// Whether an upload was accepted as the rules say.
pub open spec fn upload_accepted(
    filename: Option<Seq<char>>,
    declared_content_type: Option<Seq<char>>,
    data: Seq<u8>,
    max_file_size: int,
    accepted: AppResult<FileUpload>,
) -> bool {
    match filename {
        None => accepted matches Err(AppError::BadRequest(m)) && m@ == "Filename is required"@,
        Some(name) => if !is_upload_name(name) {
            accepted matches Err(AppError::ValidationError(m)) && m@ == unsupported_format_text()
        } else if data.len() > max_file_size {
            accepted matches Err(AppError::ValidationError(m)) && m@ == oversize_text(
                data.len(),
                max_file_size as nat,
            )
        } else {
            accepted matches Ok(upload) && upload.well_formed() && upload.filename@ == name
                && upload.data@ == data && upload.size == data.len()
                && upload.content_type@ == (match declared_content_type {
                Some(declared) => declared,
                None => content_type_text(lowercased(last_dot_part_text(name))),
            })
        },
    }
}

impl PaginationQuery {
    /// The page that this query means.
    pub fn page_number(&self) -> (page: i64)
        ensures
            page == page_of(*self),
            page >= 1,
    {
        match self.page {
            Some(p) => if p < 1 {
                1
            } else {
                p
            },
            None => DEFAULT_PAGE,
        }
    }

    /// The page size that this query means.
    pub fn page_limit(&self) -> (limit: i64)
        ensures
            limit == limit_of(*self),
            1 <= limit <= 100,
    {
        match self.limit {
            Some(l) => if l < 1 {
                1
            } else if l > MAX_LIMIT {
                MAX_LIMIT
            } else {
                l
            },
            None => DEFAULT_LIMIT,
        }
    }
}

impl TranscriptionController {
    /// Whether a lowercase extension is one that an upload may have.
    pub fn is_upload_extension(extension: &str) -> (accepted: bool)
        ensures
            accepted == is_upload_format(extension@),
    {
        text_equals(extension, "wav") || text_equals(extension, "mp3") || text_equals(
            extension,
            "m4a",
        ) || text_equals(extension, "flac") || text_equals(extension, "ogg") || text_equals(
            extension,
            "aac",
        ) || text_equals(extension, "wma") || text_equals(extension, "aiff") || text_equals(
            extension,
            "au",
        ) || text_equals(extension, "webm") || text_equals(extension, "opus") || text_equals(
            extension,
            "3gp",
        ) || text_equals(extension, "amr")
    }

    /// Helper function to check supported audio formats: the name must show an
    /// extension, the part behind its last dot, and the extension in lowercase
    /// must be on the list. A name without a dot shows none and is not supported.
    pub fn is_supported_audio_format(filename: &str) -> (supported: bool)
        ensures
            supported == is_upload_name(filename@),
            !filename@.contains('.') ==> !supported,
            filename@.contains('.') ==> supported == is_upload_format(
                lowercased(last_dot_part_text(filename@)),
            ),
    {
        match extension_of(filename) {
            Some(extension) => {
                let lower: String = lowercase(extension);
                Self::is_upload_extension(lower.as_str())
            },
            None => false,
        }
    }

    /// The content type for a lowercase extension.
    pub fn content_type_for(extension: &str) -> (content_type: String)
        ensures
            content_type@ == content_type_text(extension@),
    {
        if text_equals(extension, "mp3") {
            String::from_str("audio/mpeg")
        } else if text_equals(extension, "wav") {
            String::from_str("audio/wav")
        } else if text_equals(extension, "m4a") {
            String::from_str("audio/mp4")
        } else if text_equals(extension, "flac") {
            String::from_str("audio/flac")
        } else if text_equals(extension, "ogg") {
            String::from_str("audio/ogg")
        } else if text_equals(extension, "aac") {
            String::from_str("audio/aac")
        } else if text_equals(extension, "wma") {
            String::from_str("audio/x-ms-wma")
        } else if text_equals(extension, "aiff") {
            String::from_str("audio/aiff")
        } else if text_equals(extension, "webm") {
            String::from_str("audio/webm")
        } else if text_equals(extension, "opus") {
            String::from_str("audio/opus")
        } else {
            String::from_str("application/octet-stream")
        }
    }

    /// Helper function to guess content type from filename.
    pub fn guess_content_type(filename: &str) -> (content_type: String)
        ensures
            content_type@ == content_type_text(lowercased(last_dot_part_text(filename@))),
    {
        let extension: String = lowercase(last_dot_part(filename));
        Self::content_type_for(extension.as_str())
    }

    /// Whether a form field carries the audio file.
    pub fn is_upload_field(name: &str) -> (carries: bool)
        ensures
            carries == (name@ == "audio_file"@),
    {
        text_equals(name, "audio_file")
    }

    /// Decides on an upload: it needs a filename of a supported format and
    /// data within the size limit. An accepted upload keeps the name that the
    /// user gave it and its data, and gets the declared content type, or a
    /// guessed one.
    pub fn accept_upload(
        filename: Option<&str>,
        declared_content_type: Option<&str>,
        data: Vec<u8>,
        max_file_size: usize,
    ) -> (accepted: AppResult<FileUpload>)
        ensures
            upload_accepted(
                match filename {
                    Some(n) => Some(n@),
                    None => None,
                },
                match declared_content_type {
                    Some(c) => Some(c@),
                    None => None,
                },
                data@,
                max_file_size as int,
                accepted,
            ),
    {
        let name: &str = match filename {
            Some(n) => n,
            None => {
                return Err(AppError::BadRequest(String::from_str("Filename is required")));
            },
        };
        if !Self::is_supported_audio_format(name) {
            return Err(
                AppError::ValidationError(
                    String::from_str(
                        "Unsupported audio format. Supported formats: wav, mp3, m4a, flac, ogg, aac, wma, aiff, au",
                    ),
                ),
            );
        }
        match crate::utils::file::validate_file_size(data.len(), max_file_size) {
            Err(e) => {
                return Err(e);
            },
            Ok(_) => {},
        }
        let content_type: String = match declared_content_type {
            Some(declared) => String::from_str(declared),
            None => Self::guess_content_type(name),
        };
        Ok(FileUpload::new(String::from_str(name), content_type, data))
    }

    /// The upload of a request, which must hold one.
    pub fn require_upload(upload: Option<FileUpload>) -> (required: AppResult<FileUpload>)
        ensures
            match upload {
                Some(u) => required == Ok::<FileUpload, AppError>(u),
                None => required matches Err(AppError::BadRequest(m)) && m@
                    == "No audio file provided"@,
            },
    {
        match upload {
            Some(u) => Ok(u),
            None => Err(AppError::BadRequest(String::from_str("No audio file provided"))),
        }
    }

    /// Pages needed for `total` entries, `limit` to a page.
    pub fn total_pages(total: u64, limit: i64) -> (pages: u64)
        requires
            limit >= 1,
        ensures
            pages == pages_for(total as int, limit as int),
    {
        let per_page: u64 = limit as u64;
        let full: u64 = total / per_page;
        proof {
            let t = total as int;
            let d = per_page as int;
            let q = full as int;
            let r = (total % per_page) as int;
            assert(t == q * d + r) by (nonlinear_arith)
                requires
                    d > 0,
                    q == t / d,
                    r == t % d,
            ;
            if r == 0 {
                vstd::arithmetic::div_mod::lemma_fundamental_div_mod_converse(
                    t + d - 1,
                    d,
                    q,
                    d - 1,
                );
            } else {
                assert(t + d - 1 == (q + 1) * d + (r - 1)) by (nonlinear_arith)
                    requires
                        t == q * d + r,
                ;
                vstd::arithmetic::div_mod::lemma_fundamental_div_mod_converse(
                    t + d - 1,
                    d,
                    q + 1,
                    r - 1,
                );
                assert(q + 1 <= u64::MAX) by (nonlinear_arith)
                    requires
                        t == q * d + r,
                        d >= 2,
                        q >= 0,
                        r >= 0,
                        t <= u64::MAX,
                ;
            }
        }
        if total % per_page == 0 {
            full
        } else {
            full + 1
        }
    }
}

impl AuthController {
    /// Lifetime of an access token in seconds, from its lifetime in minutes;
    /// nothing if the seconds cannot be held.
    pub fn expires_in_seconds(expires_in_minutes: i64) -> (seconds: Option<i64>)
        ensures
            match seconds {
                Some(s) => s == expires_in_minutes * 60,
                None => expires_in_minutes * 60 < i64::MIN || expires_in_minutes * 60 > i64::MAX,
            },
    {
        expires_in_minutes.checked_mul(60)
    }
}

} // verus!
