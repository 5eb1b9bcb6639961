//! Invocation of the external media converter: its command line and the
//! reading of its outcome. Launching the process is the caller's part.

use vstd::prelude::*;
use crate::text::texts;

verus! {

/// Name of the converter program.
pub open spec fn converter_program_text() -> Seq<char> {
    "ffmpeg"@
}

/// Name of the program that reports a file's duration.
pub open spec fn probe_program_text() -> Seq<char> {
    "ffprobe"@
}

/// Command line that transcodes `input` into a 16 kHz, mono, 16-bit signed
/// little-endian PCM container at `output`, overwriting it.
pub open spec fn converter_argument_texts(input: Seq<char>, output: Seq<char>) -> Seq<Seq<char>> {
    seq![
        "-i"@,
        input,
        "-ar"@,
        "16000"@,
        "-ac"@,
        "1"@,
        "-c:a"@,
        "pcm_s16le"@,
        "-f"@,
        "wav"@,
        "-y"@,
        output,
    ]
}

/// Command line that prints the duration of `path` in seconds and nothing else.
pub open spec fn probe_argument_texts(path: Seq<char>) -> Seq<Seq<char>> {
    seq!["-v"@, "quiet"@, "-show_entries"@, "format=duration"@, "-of"@, "csv=p=0"@, path]
}

/// How a run of the converter ended.
#[derive(Clone, Debug, PartialEq, Eq)]
pub enum ConversionOutcome {
    /// The process could not be started; the text says why.
    LaunchFailed(String),
    /// The process ran to its end.
    Exited { success: bool, stderr: String },
}

/// Why normalization failed.
#[derive(Clone, Debug, PartialEq, Eq)]
pub enum NormalizeError {
    /// The converter could not be launched: a fault of the deployment.
    ToolUnavailable(String),
    /// The converter rejected the input; the text is its own diagnostic.
    Conversion(String),
}

/// The converter program.
pub fn converter_program() -> (program: String)
    ensures
        program@ == converter_program_text(),
{
    String::from_str("ffmpeg")
}

/// The duration probe program.
pub fn probe_program() -> (program: String)
    ensures
        program@ == probe_program_text(),
{
    String::from_str("ffprobe")
}

/// Builds the converter's command line.
pub fn converter_arguments(input_path: &str, output_path: &str) -> (arguments: Vec<String>)
    ensures
        texts(arguments@) == converter_argument_texts(input_path@, output_path@),
{
    let mut arguments: Vec<String> = Vec::new();
    arguments.push(String::from_str("-i"));
    arguments.push(String::from_str(input_path));
    arguments.push(String::from_str("-ar"));
    arguments.push(String::from_str("16000"));
    arguments.push(String::from_str("-ac"));
    arguments.push(String::from_str("1"));
    arguments.push(String::from_str("-c:a"));
    arguments.push(String::from_str("pcm_s16le"));
    arguments.push(String::from_str("-f"));
    arguments.push(String::from_str("wav"));
    arguments.push(String::from_str("-y"));
    arguments.push(String::from_str(output_path));
    assert(texts(arguments@) =~= converter_argument_texts(input_path@, output_path@));
    arguments
}

/// Builds the duration probe's command line.
pub fn probe_arguments(path: &str) -> (arguments: Vec<String>)
    ensures
        texts(arguments@) == probe_argument_texts(path@),
{
    let mut arguments: Vec<String> = Vec::new();
    arguments.push(String::from_str("-v"));
    arguments.push(String::from_str("quiet"));
    arguments.push(String::from_str("-show_entries"));
    arguments.push(String::from_str("format=duration"));
    arguments.push(String::from_str("-of"));
    arguments.push(String::from_str("csv=p=0"));
    arguments.push(String::from_str(path));
    assert(texts(arguments@) =~= probe_argument_texts(path@));
    arguments
}

/// Reads the converter's outcome: success is decided by the exit status
/// alone, and the diagnostic is the captured standard error alone.
pub fn interpret_outcome(outcome: ConversionOutcome) -> (normalized: Result<(), NormalizeError>)
    ensures
        match outcome {
            ConversionOutcome::LaunchFailed(reason) => normalized == Err::<(), NormalizeError>(
                NormalizeError::ToolUnavailable(reason),
            ),
            ConversionOutcome::Exited { success, stderr } => if success {
                normalized == Ok::<(), NormalizeError>(())
            } else {
                normalized == Err::<(), NormalizeError>(NormalizeError::Conversion(stderr))
            },
        },
{
    match outcome {
        ConversionOutcome::LaunchFailed(reason) => Err(NormalizeError::ToolUnavailable(reason)),
        ConversionOutcome::Exited { success, stderr } => {
            if success {
                Ok(())
            } else {
                Err(NormalizeError::Conversion(stderr))
            }
        },
    }
}

} // verus!
