use transcriber::audio::constraints::{
    duration_millis, duration_seconds, validate_duration, AudioConstraints, DurationError,
};
use transcriber::audio::container::{locate_data_chunk, ContainerError, DataChunk};
use transcriber::audio::layout::encode_minimal_container;
use transcriber::audio::samples::{
    convert_samples, decode_pcm, sample_from_le, AudioError, SampleError,
};

fn chunk(id: &[u8; 4], body: &[u8]) -> Vec<u8> {
    let mut out = Vec::new();
    out.extend_from_slice(id);
    out.extend_from_slice(&(body.len() as u32).to_le_bytes());
    out.extend_from_slice(body);
    if body.len() % 2 == 1 {
        out.push(0);
    }
    out
}

fn container(chunks: &[Vec<u8>]) -> Vec<u8> {
    let mut rest = Vec::new();
    rest.extend_from_slice(b"WAVE");
    for c in chunks {
        rest.extend_from_slice(c);
    }
    let mut out = Vec::new();
    out.extend_from_slice(b"RIFF");
    out.extend_from_slice(&(rest.len() as u32).to_le_bytes());
    out.extend_from_slice(&rest);
    out
}

fn format_chunk() -> Vec<u8> {
    chunk(b"fmt ", &[1, 0, 1, 0, 0x80, 0x3e, 0, 0, 0, 0x7d, 0, 0, 2, 0, 16, 0])
}

fn payload_of(samples: &[i16]) -> Vec<u8> {
    let mut out = Vec::new();
    for s in samples {
        out.extend_from_slice(&s.to_le_bytes());
    }
    out
}

#[test]
fn minimal_container_has_the_canonical_layout() {
    let samples = [0i16, 1, -1, 258];
    let bytes = encode_minimal_container(&samples);
    let expected = container(&[format_chunk(), chunk(b"data", &payload_of(&samples))]);
    assert_eq!(bytes, expected);
    assert_eq!(bytes.len(), 44 + 8);
    assert_eq!(&bytes[0..4], b"RIFF");
    assert_eq!(&bytes[4..8], &44u32.to_le_bytes());
    assert_eq!(&bytes[8..12], b"WAVE");
    assert_eq!(&bytes[36..40], b"data");
    assert_eq!(&bytes[40..44], &8u32.to_le_bytes());
    assert_eq!(&bytes[44..], &[0, 0, 1, 0, 0xff, 0xff, 2, 1]);
}

#[test]
fn round_trip_reproduces_the_samples() {
    let samples = vec![0i16, 1, -1, 32767, -32768, 12345, -12345, 256, -256];
    let bytes = encode_minimal_container(&samples);
    assert_eq!(locate_data_chunk(&bytes), Ok(DataChunk { offset: 44, len: 18 }));
    assert_eq!(decode_pcm(&bytes), Ok(samples.clone()));
    let amplitudes: Vec<f32> = samples.iter().map(|s| *s as f32 / 32768.0).collect();
    let back: Vec<i16> = amplitudes.iter().map(|x| (x * 32768.0).round() as i16).collect();
    assert_eq!(back, samples);
}

#[test]
fn round_trip_of_no_samples_is_an_empty_buffer() {
    let bytes = encode_minimal_container(&[]);
    assert_eq!(bytes.len(), 44);
    assert_eq!(locate_data_chunk(&bytes), Ok(DataChunk { offset: 44, len: 0 }));
    assert_eq!(decode_pcm(&bytes), Err(AudioError::EmptySampleBuffer));
}

#[test]
fn data_chunk_is_found_behind_an_odd_sized_chunk() {
    let samples = [7i16, -7, 1000];
    let bytes = container(&[
        format_chunk(),
        chunk(b"LIST", &[1, 2, 3]),
        chunk(b"junk", &[9; 10]),
        chunk(b"data", &payload_of(&samples)),
    ]);
    let offset = 12 + 24 + (8 + 3 + 1) + (8 + 10) + 8;
    assert_eq!(locate_data_chunk(&bytes), Ok(DataChunk { offset, len: 6 }));
    assert_eq!(decode_pcm(&bytes), Ok(samples.to_vec()));
}

#[test]
fn data_chunk_is_found_before_trailing_chunks() {
    let samples = [5i16; 8];
    let bytes = container(&[
        chunk(b"bext", &[0; 5]),
        chunk(b"data", &payload_of(&samples)),
        chunk(b"LIST", &[1, 2, 3, 4]),
    ]);
    assert_eq!(locate_data_chunk(&bytes), Ok(DataChunk { offset: 12 + 14 + 8, len: 16 }));
    assert_eq!(decode_pcm(&bytes), Ok(samples.to_vec()));
}

#[test]
fn zero_sized_chunks_are_stepped_over() {
    let bytes = container(&[
        chunk(b"aaaa", &[]),
        chunk(b"bbbb", &[]),
        chunk(b"cccc", &[0; 12]),
        chunk(b"data", &[1, 0, 2, 0]),
    ]);
    assert_eq!(decode_pcm(&bytes), Ok(vec![1, 2]));
}

#[test]
fn short_buffers_are_malformed() {
    assert_eq!(locate_data_chunk(&[]), Err(ContainerError::Malformed));
    let mut bytes = encode_minimal_container(&[1, 2, 3]);
    bytes.truncate(43);
    assert_eq!(locate_data_chunk(&bytes), Err(ContainerError::Malformed));
    assert_eq!(decode_pcm(&bytes), Err(AudioError::MalformedContainer));
    let small = container(&[chunk(b"data", &[1, 0])]);
    assert_eq!(small.len(), 22);
    assert_eq!(locate_data_chunk(&small), Err(ContainerError::Malformed));
}

#[test]
fn wrong_magic_markers_are_malformed() {
    let good = encode_minimal_container(&[1, 2, 3]);
    for at in [0usize, 1, 2, 3, 8, 9, 10, 11] {
        let mut bytes = good.clone();
        bytes[at] ^= 0x20;
        assert_eq!(locate_data_chunk(&bytes), Err(ContainerError::Malformed));
        assert_eq!(decode_pcm(&bytes), Err(AudioError::MalformedContainer));
    }
    let mut other_size = good.clone();
    other_size[4] = 0;
    assert_eq!(decode_pcm(&other_size), Ok(vec![1, 2, 3]));
}

#[test]
fn exhausted_walk_reports_no_data_chunk() {
    let bytes = container(&[format_chunk(), chunk(b"LIST", &[0; 20])]);
    assert!(bytes.len() >= 44);
    assert_eq!(locate_data_chunk(&bytes), Err(ContainerError::NoDataChunk));
    assert_eq!(decode_pcm(&bytes), Err(AudioError::NoDataChunk));
}

#[test]
fn chunk_that_overruns_the_buffer_ends_the_walk() {
    let mut bytes = container(&[format_chunk(), chunk(b"LIST", &[0; 20])]);
    let at = 12 + 24 + 4;
    bytes[at..at + 4].copy_from_slice(&1000u32.to_le_bytes());
    bytes.extend_from_slice(&chunk(b"data", &[1, 0]));
    assert_eq!(locate_data_chunk(&bytes), Err(ContainerError::NoDataChunk));
}

#[test]
fn trailing_bytes_short_of_a_header_end_the_walk() {
    let mut bytes = container(&[format_chunk(), chunk(b"LIST", &[0; 8])]);
    bytes.extend_from_slice(b"data\x02\x00\x00");
    assert_eq!(locate_data_chunk(&bytes), Err(ContainerError::NoDataChunk));
}

#[test]
fn declared_size_beyond_the_buffer_is_cut_to_what_is_there() {
    let mut bytes = encode_minimal_container(&[10, 20, 30]);
    bytes[40..44].copy_from_slice(&0xffff_ffffu32.to_le_bytes());
    assert_eq!(locate_data_chunk(&bytes), Ok(DataChunk { offset: 44, len: 6 }));
    assert_eq!(decode_pcm(&bytes), Ok(vec![10, 20, 30]));
}

#[test]
fn declared_size_below_the_buffer_is_kept() {
    let mut bytes = encode_minimal_container(&[10, 20, 30]);
    bytes[40..44].copy_from_slice(&4u32.to_le_bytes());
    assert_eq!(locate_data_chunk(&bytes), Ok(DataChunk { offset: 44, len: 4 }));
    assert_eq!(decode_pcm(&bytes), Ok(vec![10, 20]));
}

#[test]
fn odd_payload_is_misaligned() {
    assert_eq!(convert_samples(&[1, 2, 3]), Err(SampleError::Misaligned));
    assert_eq!(convert_samples(&[1]), Err(SampleError::Misaligned));
    let bytes = container(&[format_chunk(), chunk(b"data", &[1, 0, 2])]);
    assert_eq!(decode_pcm(&bytes), Err(AudioError::MisalignedSampleData));
}

#[test]
fn empty_payload_is_an_empty_buffer() {
    assert_eq!(convert_samples(&[]), Err(SampleError::Empty));
}

#[test]
fn samples_are_little_endian_and_signed() {
    assert_eq!(sample_from_le(0x00, 0x00), 0);
    assert_eq!(sample_from_le(0x01, 0x00), 1);
    assert_eq!(sample_from_le(0x00, 0x01), 256);
    assert_eq!(sample_from_le(0xff, 0x7f), 32767);
    assert_eq!(sample_from_le(0x00, 0x80), -32768);
    assert_eq!(sample_from_le(0xff, 0xff), -1);
    assert_eq!(sample_from_le(0x34, 0x12), 0x1234);
    for lo in 0..=255u8 {
        for hi in 0..=255u8 {
            assert_eq!(sample_from_le(lo, hi), i16::from_le_bytes([lo, hi]));
        }
    }
}

#[test]
fn converted_length_is_half_the_payload_and_amplitudes_are_bounded() {
    let payload: Vec<u8> = (0..2000u32).map(|i| (i * 37 % 256) as u8).collect();
    let samples = convert_samples(&payload).unwrap();
    assert_eq!(samples.len(), payload.len() / 2);
    for (i, s) in samples.iter().enumerate() {
        assert_eq!(*s, i16::from_le_bytes([payload[2 * i], payload[2 * i + 1]]));
        let amplitude = *s as f32 / 32768.0;
        assert!((-1.0..=1.0).contains(&amplitude));
    }
    let extremes = convert_samples(&[0x00, 0x80, 0xff, 0x7f]).unwrap();
    assert_eq!(extremes[0] as f32 / 32768.0, -1.0);
    assert!(extremes[1] as f32 / 32768.0 < 1.0);
}

#[test]
fn default_limits_are_one_second_to_one_hour() {
    let limits = AudioConstraints::default();
    assert_eq!(limits.min_duration_seconds, 1);
    assert_eq!(limits.max_duration_seconds, 3600);
}

#[test]
fn duration_limits_are_inclusive() {
    let limits = AudioConstraints::default();
    assert_eq!(validate_duration(0, &limits), Err(DurationError::TooShort));
    assert_eq!(validate_duration(8000, &limits), Err(DurationError::TooShort));
    assert_eq!(validate_duration(15999, &limits), Err(DurationError::TooShort));
    assert_eq!(validate_duration(16000, &limits), Ok(()));
    assert_eq!(validate_duration(32000, &limits), Ok(()));
    assert_eq!(validate_duration(3600 * 16000, &limits), Ok(()));
    assert_eq!(validate_duration(3600 * 16000 + 1, &limits), Err(DurationError::TooLong));
}

#[test]
fn duration_limits_may_be_configured() {
    let limits = AudioConstraints { min_duration_seconds: 0, max_duration_seconds: 2 };
    assert_eq!(validate_duration(0, &limits), Ok(()));
    assert_eq!(validate_duration(32000, &limits), Ok(()));
    assert_eq!(validate_duration(32001, &limits), Err(DurationError::TooLong));
    let huge = AudioConstraints { min_duration_seconds: u64::MAX, max_duration_seconds: u64::MAX };
    assert_eq!(validate_duration(usize::MAX, &huge), Err(DurationError::TooShort));
    let crossed = AudioConstraints { min_duration_seconds: 5, max_duration_seconds: 1 };
    assert_eq!(validate_duration(16000, &crossed), Err(DurationError::TooShort));
    assert_eq!(validate_duration(5 * 16000, &crossed), Err(DurationError::TooLong));
}

#[test]
fn duration_comes_from_the_sample_count() {
    assert_eq!(duration_millis(0), 0);
    assert_eq!(duration_millis(8000), 500);
    assert_eq!(duration_millis(32000), 2000);
    assert_eq!(duration_millis(16015), 1000);
    assert_eq!(duration_millis(16016), 1001);
    assert_eq!(duration_seconds(15999), 0);
    assert_eq!(duration_seconds(16000), 1);
    assert_eq!(duration_seconds(47999), 2);
}
