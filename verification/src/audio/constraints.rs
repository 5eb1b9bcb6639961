//! Duration limits, derived from the number of samples that will be transcribed.

use vstd::prelude::*;

verus! {

/// Samples per second of the normalized stream.
pub const SAMPLE_RATE: u64 = 16000;

/// Shortest accepted duration unless configured otherwise, in seconds.
pub const DEFAULT_MIN_DURATION_SECONDS: u64 = 1;

/// Longest accepted duration unless configured otherwise, in seconds.
pub const DEFAULT_MAX_DURATION_SECONDS: u64 = 3600;

/// Accepted durations: buffers below the minimum or above the maximum are rejected.
#[derive(Clone, Copy, Debug, PartialEq, Eq, Structural)]
pub struct AudioConstraints {
    pub min_duration_seconds: u64,
    pub max_duration_seconds: u64,
}

/// Why a buffer's duration was rejected.
#[derive(Clone, Copy, Debug, PartialEq, Eq, Structural)]
pub enum DurationError {
    TooShort,
    TooLong,
}

/// What the limits say of a buffer of `sample_count` samples.
pub open spec fn check_duration(sample_count: int, limits: AudioConstraints) -> Result<
    (),
    DurationError,
> {
    if sample_count < limits.min_duration_seconds * 16000 {
        Err(DurationError::TooShort)
    } else if sample_count > limits.max_duration_seconds * 16000 {
        Err(DurationError::TooLong)
    } else {
        Ok(())
    }
}

impl Default for AudioConstraints {
    fn default() -> (limits: Self)
        ensures
            limits.min_duration_seconds == 1,
            limits.max_duration_seconds == 3600,
    {
        AudioConstraints {
            min_duration_seconds: DEFAULT_MIN_DURATION_SECONDS,
            max_duration_seconds: DEFAULT_MAX_DURATION_SECONDS,
        }
    }
}

/// Duration of a buffer in milliseconds, rounded down.
pub fn duration_millis(sample_count: usize) -> (millis: u64)
    ensures
        millis == (sample_count * 1000) / 16000,
{
    (sample_count as u64) / 16
}

/// Duration of a buffer in whole seconds, rounded down.
pub fn duration_seconds(sample_count: usize) -> (seconds: u64)
    ensures
        seconds == sample_count / 16000,
{
    (sample_count as u64) / SAMPLE_RATE
}

/// Checks a buffer's duration against the limits. The duration comes from the
/// sample count alone.
pub fn validate_duration(sample_count: usize, limits: &AudioConstraints) -> (checked: Result<
    (),
    DurationError,
>)
    ensures
        checked == check_duration(sample_count as int, *limits),
{
    let count: u64 = sample_count as u64;
    let whole: u64 = count / SAMPLE_RATE;
    let part: u64 = count % SAMPLE_RATE;
    if whole < limits.min_duration_seconds {
        Err(DurationError::TooShort)
    } else if whole > limits.max_duration_seconds || (whole == limits.max_duration_seconds && part
        > 0) {
        Err(DurationError::TooLong)
    } else {
        Ok(())
    }
}

/// A buffer that the limits accept lasts no less than the minimum and no
/// more than the maximum, to the millisecond.
pub proof fn lemma_accepted_duration_within_limits(sample_count: int, limits: AudioConstraints)
    requires
        sample_count >= 0,
        check_duration(sample_count, limits).is_ok(),
    ensures
        limits.min_duration_seconds * 1000 <= (sample_count * 1000) / 16000
            <= limits.max_duration_seconds * 1000,
{
}

/// The limits reject exactly the buffers that last less than the minimum
/// or more than the maximum, whatever the count of samples.
pub proof fn lemma_rejection_is_by_duration(sample_count: int, limits: AudioConstraints)
    requires
        sample_count >= 0,
    ensures
        check_duration(sample_count, limits) == Err::<(), DurationError>(DurationError::TooShort)
            <==> sample_count / 16000 < limits.min_duration_seconds,
        check_duration(sample_count, limits).is_ok() ==> sample_count / 16000
            <= limits.max_duration_seconds,
{
}

} // verus!
