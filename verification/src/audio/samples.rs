//! Conversion of a raw payload into signed 16-bit samples.
//!
//! A sample `s` stands for the amplitude `s / 32768`; the division itself is left
//! to the caller, so that everything here stays in integers.

use vstd::prelude::*;
use crate::audio::container::{locate, locate_data_chunk, ContainerError, DataChunk};

verus! {

/// Divisor that maps a sample to its amplitude.
pub const AMPLITUDE_SCALE: i32 = 32768;

/// Why a payload could not be converted.
#[derive(Clone, Copy, Debug, PartialEq, Eq, Structural)]
pub enum SampleError {
    /// The payload length is odd.
    Misaligned,
    /// The payload holds no sample.
    Empty,
}

/// Any failure between a raw buffer and its samples.
#[derive(Clone, Copy, Debug, PartialEq, Eq, Structural)]
pub enum AudioError {
    MalformedContainer,
    NoDataChunk,
    MisalignedSampleData,
    EmptySampleBuffer,
}

/// Samples ready for recognition: mono, 16 kHz, never empty.
#[derive(Clone, Debug, PartialEq, Eq)]
pub struct PcmSampleBuffer {
    pub samples: Vec<i16>,
}

/// Value of two bytes read as a little-endian signed integer.
pub open spec fn le_i16(lo: u8, hi: u8) -> int {
    let u = lo as int + 256 * (hi as int);
    if u >= 32768 {
        u - 65536
    } else {
        u
    }
}

/// The samples that an even-length payload holds, in order.
pub open spec fn samples_of(payload: Seq<u8>) -> Seq<i16> {
    Seq::new(
        (payload.len() / 2) as nat,
        |i: int| le_i16(payload[2 * i], payload[2 * i + 1]) as i16,
    )
}

/// What converting a payload yields.
pub open spec fn convert(payload: Seq<u8>) -> Result<Seq<i16>, SampleError> {
    if payload.len() % 2 != 0 {
        Err(SampleError::Misaligned)
    } else if payload.len() == 0 {
        Err(SampleError::Empty)
    } else {
        Ok(samples_of(payload))
    }
}

/// What decoding a whole container yields.
pub open spec fn decode(bytes: Seq<u8>) -> Result<Seq<i16>, AudioError> {
    match locate(bytes) {
        Err(ContainerError::Malformed) => Err(AudioError::MalformedContainer),
        Err(ContainerError::NoDataChunk) => Err(AudioError::NoDataChunk),
        Ok((offset, len)) => match convert(bytes.subrange(offset, offset + len)) {
            Err(SampleError::Misaligned) => Err(AudioError::MisalignedSampleData),
            Err(SampleError::Empty) => Err(AudioError::EmptySampleBuffer),
            Ok(samples) => Ok(samples),
        },
    }
}

impl PcmSampleBuffer {
    /// A buffer holds at least one sample.
    pub open spec fn well_formed(self) -> bool {
        self.samples@.len() > 0
    }

    /// Decodes a container into a buffer.
    pub fn from_container(bytes: &[u8]) -> (decoded: Result<PcmSampleBuffer, AudioError>)
        ensures
            match decoded {
                Ok(buffer) => buffer.well_formed() && decode(bytes@) == Ok::<
                    Seq<i16>,
                    AudioError,
                >(buffer.samples@),
                Err(e) => decode(bytes@) == Err::<Seq<i16>, AudioError>(e),
            },
    {
        match decode_pcm(bytes) {
            Ok(samples) => Ok(PcmSampleBuffer { samples }),
            Err(e) => Err(e),
        }
    }

    /// Number of samples.
    pub fn len(&self) -> (count: usize)
        ensures
            count == self.samples@.len(),
    {
        self.samples.len()
    }

    /// Duration in milliseconds, rounded down: the sample count over the rate.
    pub fn duration_millis(&self) -> (millis: u64)
        ensures
            millis == (self.samples@.len() * 1000) / 16000,
    {
        crate::audio::constraints::duration_millis(self.samples.len())
    }
}

/// Reads one sample from its two bytes.
pub fn sample_from_le(lo: u8, hi: u8) -> (s: i16)
    ensures
        s as int == le_i16(lo, hi),
{
    let u: u16 = lo as u16 + 256 * (hi as u16);
    if u >= 32768 {
        let low: i16 = (u - 32768) as i16;
        low - 32767 - 1
    } else {
        u as i16
    }
}

/// Converts a payload into samples. The result has one sample for every two
/// bytes, and each sample lies within the amplitude scale, so that its
/// amplitude lies in [-1, 1].
pub fn convert_samples(payload: &[u8]) -> (converted: Result<Vec<i16>, SampleError>)
    ensures
        match converted {
            Ok(samples) => convert(payload@) == Ok::<Seq<i16>, SampleError>(samples@),
            Err(e) => convert(payload@) == Err::<Seq<i16>, SampleError>(e),
        },
        converted matches Ok(samples) ==> samples@.len() == payload@.len() / 2 && forall|
            i: int,
        |
            0 <= i < samples@.len() ==> -AMPLITUDE_SCALE <= #[trigger] samples@[i]
                < AMPLITUDE_SCALE,
{
    let n: usize = payload.len();
    if n % 2 != 0 {
        return Err(SampleError::Misaligned);
    }
    if n == 0 {
        return Err(SampleError::Empty);
    }
    let count: usize = n / 2;
    let mut samples: Vec<i16> = Vec::new();
    let mut i: usize = 0;
    while i < count
        invariant
            n == payload@.len(),
            n % 2 == 0,
            count == n / 2,
            i <= count,
            samples@.len() == i,
            forall|k: int| 0 <= k < i ==> #[trigger] samples@[k] == samples_of(payload@)[k],
        decreases count - i,
    {
        let s: i16 = sample_from_le(payload[2 * i], payload[2 * i + 1]);
        samples.push(s);
        i = i + 1;
    }
    assert(samples@ =~= samples_of(payload@));
    Ok(samples)
}

/// Decodes a container into its samples: header check, chunk walk, conversion.
pub fn decode_pcm(bytes: &[u8]) -> (decoded: Result<Vec<i16>, AudioError>)
    ensures
        match decoded {
            Ok(samples) => decode(bytes@) == Ok::<Seq<i16>, AudioError>(samples@),
            Err(e) => decode(bytes@) == Err::<Seq<i16>, AudioError>(e),
        },
        decoded matches Ok(samples) ==> samples@.len() > 0,
{
    match locate_data_chunk(bytes) {
        Err(ContainerError::Malformed) => Err(AudioError::MalformedContainer),
        Err(ContainerError::NoDataChunk) => Err(AudioError::NoDataChunk),
        Ok(DataChunk { offset, len }) => {
            let total: usize = bytes.len();
            assert(offset + len <= total);
            let payload = vstd::slice::slice_subrange(bytes, offset, offset + len);
            match convert_samples(payload) {
                Err(SampleError::Misaligned) => Err(AudioError::MisalignedSampleData),
                Err(SampleError::Empty) => Err(AudioError::EmptySampleBuffer),
                Ok(samples) => Ok(samples),
            }
        },
    }
}

} // verus!
