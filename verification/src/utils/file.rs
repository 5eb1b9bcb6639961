//! Checks and names for uploaded files.

use vstd::prelude::*;
use crate::errors::{AppError, AppResult};
use crate::pipeline::scratch::{fresh_identifier, is_identifier};
use crate::text::{
    after_last_dot, decimal, decimal_text, last_dot_part_text, lowercase, lowercased,
    signed_decimal, signed_decimal_text, text_equals,
};

verus! {

/// The extensions that are always accepted.
pub open spec fn is_basic_format(extension: Seq<char>) -> bool {
    ||| extension == "wav"@
    ||| extension == "mp3"@
    ||| extension == "m4a"@
    ||| extension == "flac"@
    ||| extension == "ogg"@
}

/// The text of the complaint about an oversized file.
pub open spec fn oversize_text(size: nat, max_size: nat) -> Seq<char> {
    "File size "@ + decimal_text(size) + " bytes exceeds maximum allowed size of "@
        + decimal_text(max_size) + " bytes"@
}

/// The name under which an upload is kept: the moment, an underscore, a
/// random identifier and, if there is one, a dot and the extension.
pub open spec fn unique_filename_text(
    timestamp: int,
    id: Seq<char>,
    extension: Option<Seq<char>>,
) -> Seq<char> {
    let stem = signed_decimal_text(timestamp) + seq!['_'] + id;
    match extension {
        Some(e) => stem + seq!['.'] + e,
        None => stem,
    }
}

/// Index just behind the last slash of `s`, or 0 if it holds none.
pub open spec fn after_last_slash(s: Seq<char>) -> int
    decreases s.len(),
{
    if s.len() == 0 {
        0
    } else if s.last() == '/' {
        s.len() as int
    } else {
        after_last_slash(s.drop_last())
    }
}

/// A path that every platform reads alike: its only separator is the slash.
/// It holds no backslash and no colon, and it does not begin with two
/// slashes, which some platforms read as the start of a network share.
pub open spec fn is_portable_path(path: Seq<char>) -> bool {
    &&& !path.contains('\\')
    &&& !path.contains(':')
    &&& !(path.len() >= 2 && path[0] == '/' && path[1] == '/')
}

/// The file name of a portable path: its final component. Trailing slashes
/// and trailing components that are a single dot do not count; a path that
/// is empty, that is a single dot, or that ends in the parent directory has
/// no file name.
pub open spec fn final_name(path: Seq<char>) -> Option<Seq<char>>
    decreases path.len(),
{
    if path.len() == 0 {
        None
    } else if path.last() == '/' {
        final_name(path.drop_last())
    } else {
        let start = after_last_slash(path);
        let last = path.subrange(start, path.len() as int);
        if last == seq!['.', '.'] {
            None
        } else if last == seq!['.'] {
            if 0 < start < path.len() {
                final_name(path.subrange(0, start))
            } else {
                None
            }
        } else {
            Some(last)
        }
    }
}

/// The extension of a file name: nothing if it holds no dot, nothing if
/// its only dot is its first character, else the part behind its last dot.
pub open spec fn plain_extension(name: Seq<char>) -> Option<Seq<char>> {
    if after_last_dot(name) <= 1 {
        None
    } else {
        Some(last_dot_part_text(name))
    }
}

/// The extension of a portable path: that of its file name, if it has one.
pub open spec fn portable_extension(path: Seq<char>) -> Option<Seq<char>> {
    match final_name(path) {
        Some(name) => plain_extension(name),
        None => None,
    }
}

/// `part` stands in `path` right behind a dot.
pub open spec fn follows_a_dot(path: Seq<char>, part: Seq<char>) -> bool {
    exists|k: int|
        0 < k && k + part.len() <= path.len() && path[k - 1] == '.' && #[trigger] path.subrange(
            k,
            k + part.len(),
        ) == part
}

/// Whether a path is accepted by its extension, where every platform reads
/// the path alike.
pub open spec fn is_basic_path(path: Seq<char>) -> bool {
    match portable_extension(path) {
        Some(e) => is_basic_format(lowercased(e)),
        None => false,
    }
}

/// `Path::extension` of std on the path with this text. As std documents
/// it: the extension is the part of the file name behind its last dot, and
/// there is none if the path has no file name, if the file name holds no
/// dot, or if its only dot is its first character. So a path without a dot
/// has no extension, and an extension stands in the path right behind a dot
/// and holds neither a dot nor a slash. The file name is the final component
/// of the path; where every platform reads the path alike, that is the
/// component which `final_name` describes.
#[verifier::external_body]
fn path_extension(filename: &str) -> (extension: Option<String>)
    ensures
        !filename@.contains('.') ==> extension.is_none(),
        extension matches Some(e) ==> !e@.contains('.') && !e@.contains('/') && follows_a_dot(
            filename@,
            e@,
        ),
        is_portable_path(filename@) ==> match extension {
            Some(e) => portable_extension(filename@) == Some(e@),
            None => portable_extension(filename@).is_none(),
        },
{
    match std::path::Path::new(filename).extension() {
        Some(e) => Some(e.to_string_lossy().into_owned()),
        None => None,
    }
}

/// A text without a slash has nothing in front of its last slash.
proof fn lemma_no_slash_no_start(s: Seq<char>)
    requires
        !s.contains('/'),
    ensures
        after_last_slash(s) == 0,
    decreases s.len(),
{
    if s.len() > 0 {
        let shorter = s.drop_last();
        assert(s[s.len() - 1] != '/');
        if shorter.contains('/') {
            let i = choose|i: int| 0 <= i < shorter.len() && shorter[i] == '/';
            assert(s[i] == '/');
        }
        lemma_no_slash_no_start(shorter);
    }
}

/// A bare file name, one without slash, backslash or colon that is not the
/// parent directory, is a portable path, and its extension is that of the
/// whole name.
pub proof fn lemma_bare_name_extension(name: Seq<char>)
    requires
        !name.contains('/'),
        !name.contains('\\'),
        !name.contains(':'),
        name != seq!['.', '.'],
    ensures
        is_portable_path(name),
        portable_extension(name) == plain_extension(name),
{
    if name.len() >= 2 && name[0] == '/' {
        assert(name.contains('/'));
    }
    if name.len() > 0 {
        lemma_no_slash_no_start(name);
        assert(name[name.len() - 1] != '/');
        assert(name.subrange(0, name.len() as int) =~= name);
        if name == seq!['.'] {
            assert(name.len() == 1);
            assert(name.last() == '.');
            assert(after_last_dot(name) == 1);
        }
    }
}

/// Two portable paths whose file names have the same extension up to case,
/// or both none, get the same answer.
pub proof fn lemma_same_extension_same_answer(first: Seq<char>, second: Seq<char>)
    requires
        match (portable_extension(first), portable_extension(second)) {
            (Some(a), Some(b)) => lowercased(a) == lowercased(b),
            (None, None) => true,
            _ => false,
        },
    ensures
        is_basic_path(first) == is_basic_path(second),
{
}

/// `Utc::now` of chrono, as seconds since the epoch. Nothing is claimed of
/// the moment that comes.
#[verifier::external_body]
fn current_timestamp() -> (seconds: i64) {
    chrono::Utc::now().timestamp()
}

/// Whether a lowercase extension is one of the always accepted formats.
pub fn is_basic_extension(extension: &str) -> (accepted: bool)
    ensures
        accepted == is_basic_format(extension@),
{
    text_equals(extension, "wav") || text_equals(extension, "mp3") || text_equals(
        extension,
        "m4a",
    ) || text_equals(extension, "flac") || text_equals(extension, "ogg")
}

/// Whether a file with this extension, if it has one, is accepted: the
/// extension is compared in lowercase.
pub fn accepts_extension(extension: Option<&str>) -> (accepted: bool)
    ensures
        accepted == match extension {
            Some(e) => is_basic_format(lowercased(e@)),
            None => false,
        },
{
    match extension {
        Some(e) => {
            let lower: String = lowercase(e);
            is_basic_extension(lower.as_str())
        },
        None => false,
    }
}

/// Check if a file's extension is supported for audio transcription. Where
/// every platform reads the path alike, it is supported exactly if its file
/// name has an extension that is a basic format in lowercase. For any other
/// path the platform decides what the file name is: even then a path without
/// a dot is not supported, and a supported path holds, right behind a dot, a
/// part without dot or slash that is a basic format in lowercase.
pub fn is_supported_audio_format(filename: &str) -> (supported: bool)
    ensures
        is_portable_path(filename@) ==> supported == is_basic_path(filename@),
        !filename@.contains('.') ==> !supported,
        supported ==> exists|e: Seq<char>|
            #[trigger] follows_a_dot(filename@, e) && !e.contains('.') && !e.contains('/')
                && is_basic_format(lowercased(e)),
{
    match path_extension(filename) {
        Some(e) => accepts_extension(Some(e.as_str())),
        None => false,
    }
}

/// Builds the name under which an upload is kept.
pub fn unique_filename(timestamp: i64, id: &str, extension: Option<&str>) -> (name: String)
    ensures
        name@ == unique_filename_text(
            timestamp as int,
            id@,
            match extension {
                Some(e) => Some(e@),
                None => None,
            },
        ),
{
    let mut name: String = signed_decimal(timestamp);
    proof {
        reveal_strlit("_");
        reveal_strlit(".");
        assert("_"@ =~= seq!['_']);
        assert("."@ =~= seq!['.']);
    }
    name.append("_");
    name.append(id);
    match extension {
        Some(e) => {
            name.append(".");
            name.append(e);
        },
        None => {},
    }
    name
}

/// Generate a unique filename for an uploaded file: of the original name
/// only the extension is kept.
pub fn generate_unique_filename(original_filename: &str) -> (name: String)
    ensures
        exists|timestamp: int, id: Seq<char>, extension: Option<Seq<char>>|
            is_identifier(id) && (extension matches Some(e) ==> !e.contains('.') && !e.contains(
                '/',
            )) && (is_portable_path(original_filename@) ==> extension == portable_extension(
                original_filename@,
            )) && name@ == #[trigger] unique_filename_text(timestamp, id, extension),
{
    let id: String = fresh_identifier();
    let timestamp: i64 = current_timestamp();
    let extension: Option<String> = path_extension(original_filename);
    match extension {
        Some(e) => {
            let name = unique_filename(timestamp, id.as_str(), Some(e.as_str()));
            assert(name@ == unique_filename_text(timestamp as int, id@, Some(e@)));
            assert(is_portable_path(original_filename@) ==> Some(e@) == portable_extension(
                original_filename@,
            ));
            name
        },
        None => {
            let name = unique_filename(timestamp, id.as_str(), None);
            assert(name@ == unique_filename_text(timestamp as int, id@, None));
            name
        },
    }
}

/// Validate file size: a file larger than the maximum is rejected.
pub fn validate_file_size(size: usize, max_size: usize) -> (checked: AppResult<()>)
    ensures
        size <= max_size ==> checked.is_ok(),
        size > max_size ==> (checked matches Err(AppError::ValidationError(m)) && m@
            == oversize_text(size as nat, max_size as nat)),
{
    if size > max_size {
        let mut text: String = String::from_str("File size ");
        text.append(decimal(size as u64).as_str());
        text.append(" bytes exceeds maximum allowed size of ");
        text.append(decimal(max_size as u64).as_str());
        text.append(" bytes");
        return Err(AppError::ValidationError(text));
    }
    Ok(())
}

} // verus!
