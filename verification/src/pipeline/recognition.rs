//! Decoding parameters of the recognition model, fixed per deployment.

use vstd::prelude::*;

verus! {

/// Most threads that one inference may use.
pub const MAX_THREADS: u32 = 4;

/// Language of the audio.
#[derive(Clone, Debug, PartialEq, Eq)]
pub enum Language {
    /// Let the model detect it.
    Auto,
    /// A fixed language code.
    Fixed(String),
}

/// How tokens are sampled.
#[derive(Clone, Copy, Debug, PartialEq, Eq, Structural)]
pub enum SamplingStrategy {
    /// Deterministic decoding, for reproducible transcripts.
    Greedy { best_of: u32 },
}

/// Parameters handed to each inference session.
#[derive(Clone, Debug, PartialEq, Eq)]
pub struct RecognitionParameters {
    pub n_threads: u32,
    pub language: Language,
    pub strategy: SamplingStrategy,
    pub translate: bool,
    pub suppress_blank: bool,
    pub suppress_non_speech_tokens: bool,
    pub print_progress: bool,
    pub print_realtime: bool,
    pub print_timestamps: bool,
}

/// Threads for a machine with `available_cores` cores: as many as there are
/// cores, at least one, at most `MAX_THREADS`.
pub open spec fn threads_for(available_cores: int) -> int {
    if available_cores < 1 {
        1
    } else if available_cores > MAX_THREADS {
        MAX_THREADS as int
    } else {
        available_cores
    }
}

/// The language code that the model is given: `auto` lets it detect the language.
pub open spec fn language_code_text(language: Language) -> Seq<char> {
    match language {
        Language::Auto => "auto"@,
        Language::Fixed(code) => code@,
    }
}

/// Picks the thread count for a machine.
pub fn thread_count(available_cores: usize) -> (threads: u32)
    ensures
        threads == threads_for(available_cores as int),
        1 <= threads <= MAX_THREADS,
{
    if available_cores < 1 {
        1
    } else if available_cores > 4 {
        MAX_THREADS
    } else {
        available_cores as u32
    }
}

impl Language {
    /// The language code that the model is given.
    pub fn code(&self) -> (code: String)
        ensures
            code@ == language_code_text(*self),
    {
        match self {
            Language::Auto => String::from_str("auto"),
            Language::Fixed(code) => String::from_str(code.as_str()),
        }
    }
}

impl RecognitionParameters {
    /// The thread count is within its bounds and decoding is deterministic.
    pub open spec fn well_formed(self) -> bool {
        &&& 1 <= self.n_threads <= MAX_THREADS
        &&& self.strategy matches SamplingStrategy::Greedy { best_of } && best_of >= 1
    }

    /// The deployment's parameters: greedy decoding with a single candidate, no
    /// translation, blank output and non-speech tokens suppressed, nothing
    /// printed, and a thread count bounded by the cores and the cap.
    pub fn for_deployment(available_cores: usize, language: Language) -> (parameters: Self)
        ensures
            parameters.well_formed(),
            parameters.n_threads == threads_for(available_cores as int),
            parameters.language == language,
            parameters.strategy == (SamplingStrategy::Greedy { best_of: 1 }),
            !parameters.translate,
            parameters.suppress_blank,
            parameters.suppress_non_speech_tokens,
            !parameters.print_progress,
            !parameters.print_realtime,
            !parameters.print_timestamps,
    {
        RecognitionParameters {
            n_threads: thread_count(available_cores),
            language,
            strategy: SamplingStrategy::Greedy { best_of: 1 },
            translate: false,
            suppress_blank: true,
            suppress_non_speech_tokens: true,
            print_progress: false,
            print_realtime: false,
            print_timestamps: false,
        }
    }
}

} // verus!
