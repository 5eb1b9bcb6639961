//! Failures of a pipeline run, each tagged with the stage it comes from.

use vstd::prelude::*;
use crate::audio::constraints::DurationError;
use crate::audio::container::ContainerError;
use crate::audio::samples::{AudioError, SampleError};
use crate::pipeline::normalizer::NormalizeError;

verus! {

/// The stage a failure comes from.
#[derive(Clone, Copy, Debug, PartialEq, Eq, Structural)]
pub enum FailedStage {
    ScratchWrite,
    Normalization,
    ScratchRead,
    Decoding,
    Conversion,
    Validation,
    Inference,
}

/// Who is at fault: the client's input or the server's environment.
#[derive(Clone, Copy, Debug, PartialEq, Eq, Structural)]
pub enum Fault {
    Client,
    Server,
}

/// Why a pipeline run failed.
#[derive(Clone, Debug, PartialEq, Eq)]
pub enum PipelineError {
    /// The scratch input could not be written.
    ScratchWrite(String),
    /// The converter could not be launched.
    ToolUnavailable(String),
    /// The converter exited with a failure; the text is its diagnostic.
    Conversion(String),
    /// The normalized scratch output could not be read.
    ScratchRead(String),
    /// The container is too short or a magic marker is wrong.
    MalformedContainer,
    /// The container holds no data chunk.
    NoDataChunk,
    /// The payload length is odd.
    MisalignedSampleData,
    /// The payload holds no sample.
    EmptySampleBuffer,
    /// The audio is shorter than the configured minimum.
    DurationTooShort,
    /// The audio is longer than the configured maximum.
    DurationTooLong,
    /// The model could not create an inference session.
    SessionCreation(String),
    /// Recognition failed.
    Inference(String),
    /// The worker thread that ran recognition panicked.
    WorkerPanic(String),
}

/// The stage that an error names.
pub open spec fn stage_of(error: PipelineError) -> FailedStage {
    match error {
        PipelineError::ScratchWrite(_) => FailedStage::ScratchWrite,
        PipelineError::ToolUnavailable(_) => FailedStage::Normalization,
        PipelineError::Conversion(_) => FailedStage::Normalization,
        PipelineError::ScratchRead(_) => FailedStage::ScratchRead,
        PipelineError::MalformedContainer => FailedStage::Decoding,
        PipelineError::NoDataChunk => FailedStage::Decoding,
        PipelineError::MisalignedSampleData => FailedStage::Conversion,
        PipelineError::EmptySampleBuffer => FailedStage::Conversion,
        PipelineError::DurationTooShort => FailedStage::Validation,
        PipelineError::DurationTooLong => FailedStage::Validation,
        PipelineError::SessionCreation(_) => FailedStage::Inference,
        PipelineError::Inference(_) => FailedStage::Inference,
        PipelineError::WorkerPanic(_) => FailedStage::Inference,
    }
}

/// Input errors are the client's fault; environment, I/O and model errors
/// are the server's.
pub open spec fn fault_of(error: PipelineError) -> Fault {
    match error {
        PipelineError::Conversion(_) => Fault::Client,
        PipelineError::MalformedContainer => Fault::Client,
        PipelineError::NoDataChunk => Fault::Client,
        PipelineError::MisalignedSampleData => Fault::Client,
        PipelineError::EmptySampleBuffer => Fault::Client,
        PipelineError::DurationTooShort => Fault::Client,
        PipelineError::DurationTooLong => Fault::Client,
        PipelineError::ScratchWrite(_) => Fault::Server,
        PipelineError::ToolUnavailable(_) => Fault::Server,
        PipelineError::ScratchRead(_) => Fault::Server,
        PipelineError::SessionCreation(_) => Fault::Server,
        PipelineError::Inference(_) => Fault::Server,
        PipelineError::WorkerPanic(_) => Fault::Server,
    }
}

/// The pipeline error for a decoding failure.
pub open spec fn audio_failure(error: AudioError) -> PipelineError {
    match error {
        AudioError::MalformedContainer => PipelineError::MalformedContainer,
        AudioError::NoDataChunk => PipelineError::NoDataChunk,
        AudioError::MisalignedSampleData => PipelineError::MisalignedSampleData,
        AudioError::EmptySampleBuffer => PipelineError::EmptySampleBuffer,
    }
}

/// The pipeline error for a container that could not be decoded.
pub open spec fn container_failure(error: ContainerError) -> PipelineError {
    match error {
        ContainerError::Malformed => PipelineError::MalformedContainer,
        ContainerError::NoDataChunk => PipelineError::NoDataChunk,
    }
}

/// The pipeline error for a payload that could not be converted.
pub open spec fn sample_failure(error: SampleError) -> PipelineError {
    match error {
        SampleError::Misaligned => PipelineError::MisalignedSampleData,
        SampleError::Empty => PipelineError::EmptySampleBuffer,
    }
}

/// The pipeline error for a rejected duration.
pub open spec fn duration_failure(error: DurationError) -> PipelineError {
    match error {
        DurationError::TooShort => PipelineError::DurationTooShort,
        DurationError::TooLong => PipelineError::DurationTooLong,
    }
}

/// The pipeline error for a failed normalization.
pub open spec fn normalize_failure(error: NormalizeError) -> PipelineError {
    match error {
        NormalizeError::ToolUnavailable(reason) => PipelineError::ToolUnavailable(reason),
        NormalizeError::Conversion(diagnostic) => PipelineError::Conversion(diagnostic),
    }
}

impl PipelineError {
    /// The stage that this error names.
    pub fn stage(&self) -> (stage: FailedStage)
        ensures
            stage == stage_of(*self),
    {
        match self {
            PipelineError::ScratchWrite(_) => FailedStage::ScratchWrite,
            PipelineError::ToolUnavailable(_) => FailedStage::Normalization,
            PipelineError::Conversion(_) => FailedStage::Normalization,
            PipelineError::ScratchRead(_) => FailedStage::ScratchRead,
            PipelineError::MalformedContainer => FailedStage::Decoding,
            PipelineError::NoDataChunk => FailedStage::Decoding,
            PipelineError::MisalignedSampleData => FailedStage::Conversion,
            PipelineError::EmptySampleBuffer => FailedStage::Conversion,
            PipelineError::DurationTooShort => FailedStage::Validation,
            PipelineError::DurationTooLong => FailedStage::Validation,
            PipelineError::SessionCreation(_) => FailedStage::Inference,
            PipelineError::Inference(_) => FailedStage::Inference,
            PipelineError::WorkerPanic(_) => FailedStage::Inference,
        }
    }

    /// Whose fault this error is.
    pub fn fault(&self) -> (fault: Fault)
        ensures
            fault == fault_of(*self),
    {
        match self {
            PipelineError::Conversion(_) => Fault::Client,
            PipelineError::MalformedContainer => Fault::Client,
            PipelineError::NoDataChunk => Fault::Client,
            PipelineError::MisalignedSampleData => Fault::Client,
            PipelineError::EmptySampleBuffer => Fault::Client,
            PipelineError::DurationTooShort => Fault::Client,
            PipelineError::DurationTooLong => Fault::Client,
            _ => Fault::Server,
        }
    }

    /// Tags a decoding failure.
    pub fn from_audio(error: AudioError) -> (tagged: PipelineError)
        ensures
            tagged == audio_failure(error),
    {
        match error {
            AudioError::MalformedContainer => PipelineError::MalformedContainer,
            AudioError::NoDataChunk => PipelineError::NoDataChunk,
            AudioError::MisalignedSampleData => PipelineError::MisalignedSampleData,
            AudioError::EmptySampleBuffer => PipelineError::EmptySampleBuffer,
        }
    }

    /// Tags a container that could not be decoded.
    pub fn from_container(error: ContainerError) -> (tagged: PipelineError)
        ensures
            tagged == container_failure(error),
            stage_of(tagged) == FailedStage::Decoding,
    {
        match error {
            ContainerError::Malformed => PipelineError::MalformedContainer,
            ContainerError::NoDataChunk => PipelineError::NoDataChunk,
        }
    }

    /// Tags a payload that could not be converted.
    pub fn from_samples(error: SampleError) -> (tagged: PipelineError)
        ensures
            tagged == sample_failure(error),
            stage_of(tagged) == FailedStage::Conversion,
    {
        match error {
            SampleError::Misaligned => PipelineError::MisalignedSampleData,
            SampleError::Empty => PipelineError::EmptySampleBuffer,
        }
    }

    /// Tags a rejected duration.
    pub fn from_duration(error: DurationError) -> (tagged: PipelineError)
        ensures
            tagged == duration_failure(error),
    {
        match error {
            DurationError::TooShort => PipelineError::DurationTooShort,
            DurationError::TooLong => PipelineError::DurationTooLong,
        }
    }

    /// Tags a failed normalization.
    pub fn from_normalize(error: NormalizeError) -> (tagged: PipelineError)
        ensures
            tagged == normalize_failure(error),
    {
        match error {
            NormalizeError::ToolUnavailable(reason) => PipelineError::ToolUnavailable(reason),
            NormalizeError::Conversion(diagnostic) => PipelineError::Conversion(diagnostic),
        }
    }
}

} // verus!
