//! The per-request stage machine.
//!
//! The machine decides; its driver acts. After each action the driver reports
//! how it ended and is told what to do next. Whatever fails, the machine asks
//! for the release of the scratch files before it lets the run finish, and a
//! failure of the release itself never replaces the run's own outcome.

use vstd::prelude::*;
use crate::audio::constraints::{check_duration, validate_duration, AudioConstraints};
use crate::audio::samples::{decode, PcmSampleBuffer};
use crate::pipeline::failure::{audio_failure, duration_failure, PipelineError};

verus! {

/// Where a run stands.
#[derive(Clone, Copy, Debug, PartialEq, Eq, Structural)]
pub enum Stage {
    Received,
    ScratchWritten,
    Normalized,
    Decoded,
    Converted,
    Transcribing,
    Assembled,
    Failed,
    Released,
}

/// What the driver does next.
#[derive(Clone, Copy, Debug, PartialEq, Eq, Structural)]
pub enum Action {
    /// Write the upload to the scratch input.
    WriteScratchInput,
    /// Run the converter from the scratch input to the scratch output.
    Normalize,
    /// Read the scratch output and locate its payload.
    DecodeContainer,
    /// Convert the payload to samples and check the duration.
    ConvertSamples,
    /// Hand the samples to a worker thread and start recognition.
    StartInference,
    /// Wait for the worker, then assemble the transcript from its segments.
    AssembleTranscript,
    /// Remove every scratch file created so far.
    ReleaseScratch,
    /// Return the transcript, or the failure that the run holds.
    Finish,
}

/// How the driver's last action ended.
#[derive(Clone, Debug, PartialEq, Eq)]
pub enum Event {
    Completed,
    Failed(PipelineError),
}

/// A pipeline run: its stage and, once something failed, the first failure.
#[derive(Clone, Debug, PartialEq, Eq)]
pub struct Run {
    pub stage: Stage,
    pub failure: Option<PipelineError>,
}

/// The action that a stage asks for.
pub open spec fn action_of(stage: Stage) -> Action {
    match stage {
        Stage::Received => Action::WriteScratchInput,
        Stage::ScratchWritten => Action::Normalize,
        Stage::Normalized => Action::DecodeContainer,
        Stage::Decoded => Action::ConvertSamples,
        Stage::Converted => Action::StartInference,
        Stage::Transcribing => Action::AssembleTranscript,
        Stage::Assembled => Action::ReleaseScratch,
        Stage::Failed => Action::ReleaseScratch,
        Stage::Released => Action::Finish,
    }
}

/// The stage that follows when the stage's action completed.
pub open spec fn following(stage: Stage) -> Stage {
    match stage {
        Stage::Received => Stage::ScratchWritten,
        Stage::ScratchWritten => Stage::Normalized,
        Stage::Normalized => Stage::Decoded,
        Stage::Decoded => Stage::Converted,
        Stage::Converted => Stage::Transcribing,
        Stage::Transcribing => Stage::Assembled,
        Stage::Assembled => Stage::Released,
        Stage::Failed => Stage::Released,
        Stage::Released => Stage::Released,
    }
}

/// The stage's action is the release of the scratch files, or the run is
/// already over: a failure reported here comes from cleanup.
pub open spec fn cleaning_up(stage: Stage) -> bool {
    stage == Stage::Assembled || stage == Stage::Failed || stage == Stage::Released
}

/// A run as it may stand: it holds a failure exactly if it failed, or if it
/// was released after a failure.
pub open spec fn well_formed(run: Run) -> bool {
    match run.stage {
        Stage::Failed => run.failure.is_some(),
        Stage::Released => true,
        _ => run.failure.is_none(),
    }
}

/// The run after an event.
pub open spec fn step(run: Run, event: Event) -> Run {
    match event {
        Event::Completed => Run { stage: following(run.stage), failure: run.failure },
        Event::Failed(error) => if cleaning_up(run.stage) {
            Run { stage: Stage::Released, failure: run.failure }
        } else {
            Run { stage: Stage::Failed, failure: Some(error) }
        },
    }
}

/// The run after `count` completed actions.
pub open spec fn after_completions(run: Run, count: nat) -> Run
    decreases count,
{
    if count == 0 {
        run
    } else {
        step(after_completions(run, (count - 1) as nat), Event::Completed)
    }
}

/// The run after a list of events, taken in order.
pub open spec fn after_events(run: Run, events: Seq<Event>) -> Run
    decreases events.len(),
{
    if events.len() == 0 {
        run
    } else {
        step(after_events(run, events.drop_last()), events.last())
    }
}

/// Most events that a run can still take before it is released.
pub open spec fn steps_left(stage: Stage) -> nat {
    match stage {
        Stage::Received => 7,
        Stage::ScratchWritten => 6,
        Stage::Normalized => 5,
        Stage::Decoded => 4,
        Stage::Converted => 3,
        Stage::Transcribing => 2,
        Stage::Assembled => 1,
        Stage::Failed => 1,
        Stage::Released => 0,
    }
}

/// What preparing a buffer for recognition yields: its samples, if the
/// container decodes and the duration is within the limits.
pub open spec fn prepared(bytes: Seq<u8>, limits: AudioConstraints) -> Result<
    Seq<i16>,
    PipelineError,
> {
    match decode(bytes) {
        Err(e) => Err(audio_failure(e)),
        Ok(samples) => match check_duration(samples.len() as int, limits) {
            Err(e) => Err(duration_failure(e)),
            Ok(_) => Ok(samples),
        },
    }
}

impl Stage {
    /// The action that this stage asks for.
    pub fn action(&self) -> (action: Action)
        ensures
            action == action_of(*self),
    {
        match self {
            Stage::Received => Action::WriteScratchInput,
            Stage::ScratchWritten => Action::Normalize,
            Stage::Normalized => Action::DecodeContainer,
            Stage::Decoded => Action::ConvertSamples,
            Stage::Converted => Action::StartInference,
            Stage::Transcribing => Action::AssembleTranscript,
            Stage::Assembled => Action::ReleaseScratch,
            Stage::Failed => Action::ReleaseScratch,
            Stage::Released => Action::Finish,
        }
    }

    /// The stage that follows when this stage's action completed.
    pub fn next(&self) -> (next: Stage)
        ensures
            next == following(*self),
    {
        match self {
            Stage::Received => Stage::ScratchWritten,
            Stage::ScratchWritten => Stage::Normalized,
            Stage::Normalized => Stage::Decoded,
            Stage::Decoded => Stage::Converted,
            Stage::Converted => Stage::Transcribing,
            Stage::Transcribing => Stage::Assembled,
            Stage::Assembled => Stage::Released,
            Stage::Failed => Stage::Released,
            Stage::Released => Stage::Released,
        }
    }
}

impl Run {
    /// A run that has received its upload and done nothing yet.
    pub fn start() -> (run: Run)
        ensures
            run.stage == Stage::Received,
            run.failure.is_none(),
            well_formed(run),
    {
        Run { stage: Stage::Received, failure: None }
    }

    /// What the driver does next.
    pub fn next_action(&self) -> (action: Action)
        ensures
            action == action_of(self.stage),
    {
        self.stage.action()
    }

    /// Takes the outcome of the last action and moves the run on.
    pub fn advance(self, event: Event) -> (next: Run)
        ensures
            next == step(self, event),
            well_formed(self) ==> well_formed(next),
    {
        match event {
            Event::Completed => Run { stage: self.stage.next(), failure: self.failure },
            Event::Failed(error) => {
                match self.stage {
                    Stage::Assembled | Stage::Failed | Stage::Released => Run {
                        stage: Stage::Released,
                        failure: self.failure,
                    },
                    _ => Run { stage: Stage::Failed, failure: Some(error) },
                }
            },
        }
    }

    /// The run is over: its scratch files were released.
    pub fn is_finished(&self) -> (finished: bool)
        ensures
            finished == (self.stage == Stage::Released),
    {
        match self.stage {
            Stage::Released => true,
            _ => false,
        }
    }
}

/// Decodes a normalized buffer and checks its duration against the limits.
pub fn prepare_samples(bytes: &[u8], limits: &AudioConstraints) -> (samples: Result<
    PcmSampleBuffer,
    PipelineError,
>)
    ensures
        match samples {
            Ok(buffer) => prepared(bytes@, *limits) == Ok::<Seq<i16>, PipelineError>(
                buffer.samples@,
            ) && buffer.well_formed(),
            Err(e) => prepared(bytes@, *limits) == Err::<Seq<i16>, PipelineError>(e),
        },
{
    match PcmSampleBuffer::from_container(bytes) {
        Err(e) => Err(PipelineError::from_audio(e)),
        Ok(buffer) => match validate_duration(buffer.len(), limits) {
            Err(e) => Err(PipelineError::from_duration(e)),
            Ok(_) => Ok(buffer),
        },
    }
}

/// A failure at any stage before cleanup sends the run straight to `Failed`,
/// which asks for the release of the scratch files; once they are released
/// the run finishes with that same failure, whether or not the release
/// itself reported a failure of its own.
pub proof fn lemma_failure_still_releases(run: Run, error: PipelineError, cleanup: Event)
    requires
        well_formed(run),
        !cleaning_up(run.stage),
    ensures
        step(run, Event::Failed(error)).stage == Stage::Failed,
        action_of(step(run, Event::Failed(error)).stage) == Action::ReleaseScratch,
        step(step(run, Event::Failed(error)), cleanup).stage == Stage::Released,
        step(step(run, Event::Failed(error)), cleanup).failure == Some(error),
{
}

/// A run whose every action completes passes through all stages in order,
/// releases its scratch files and finishes without a failure.
pub proof fn lemma_success_releases()
    ensures
        after_completions(Run { stage: Stage::Received, failure: None }, 6).stage
            == Stage::Assembled,
        action_of(Stage::Assembled) == Action::ReleaseScratch,
        after_completions(Run { stage: Stage::Received, failure: None }, 7).stage
            == Stage::Released,
        after_completions(Run { stage: Stage::Received, failure: None }, 7).failure.is_none(),
{
    reveal_with_fuel(after_completions, 8);
}

/// A run finishes only after a release: `Finish` is asked for in `Released`
/// alone, and a step enters `Released` only from a stage whose action is the
/// release of the scratch files.
pub proof fn lemma_released_only_after_release(run: Run, event: Event)
    requires
        well_formed(run),
        run.stage != Stage::Released,
        step(run, event).stage == Stage::Released,
    ensures
        action_of(run.stage) == Action::ReleaseScratch,
        step(run, event).failure == run.failure,
        forall|stage: Stage| action_of(stage) == Action::Finish ==> stage == Stage::Released,
{
}

/// Every event brings a run closer to its release, whatever the event is.
pub proof fn lemma_step_approaches_release(run: Run, event: Event)
    ensures
        run.stage != Stage::Released ==> steps_left(step(run, event).stage) < steps_left(
            run.stage,
        ),
        run.stage == Stage::Released ==> step(run, event).stage == Stage::Released,
        well_formed(run) ==> well_formed(step(run, event)),
{
}

/// Whatever the events are, a run is released after at most seven of them:
/// no outcome of any action keeps a run from releasing its scratch files.
pub proof fn lemma_every_run_is_released(events: Seq<Event>)
    requires
        events.len() >= 7,
    ensures
        after_events(Run { stage: Stage::Received, failure: None }, events).stage
            == Stage::Released,
{
    lemma_events_approach_release(Run { stage: Stage::Received, failure: None }, events);
}

/// After a list of events the run is released, or closer to its release by
/// the number of events.
pub proof fn lemma_events_approach_release(run: Run, events: Seq<Event>)
    ensures
        steps_left(after_events(run, events).stage) + events.len() <= steps_left(run.stage)
            || after_events(run, events).stage == Stage::Released,
    decreases events.len(),
{
    if events.len() > 0 {
        lemma_events_approach_release(run, events.drop_last());
        lemma_step_approaches_release(after_events(run, events.drop_last()), events.last());
    }
}

} // verus!
