use transcriber::audio::constraints::{AudioConstraints, DurationError};
use transcriber::audio::container::ContainerError;
use transcriber::audio::layout::encode_minimal_container;
use transcriber::audio::samples::{AudioError, PcmSampleBuffer, SampleError};
use transcriber::pipeline::failure::{FailedStage, Fault, PipelineError};
use transcriber::pipeline::normalizer::{
    converter_arguments, converter_program, interpret_outcome, probe_arguments, probe_program,
    ConversionOutcome, NormalizeError,
};
use transcriber::pipeline::recognition::{
    thread_count, Language, RecognitionParameters, SamplingStrategy, MAX_THREADS,
};
use transcriber::pipeline::scratch::{scratch_path, ScratchFile, ScratchSet};
use transcriber::pipeline::stages::{prepare_samples, Action, Event, Run, Stage};
use transcriber::pipeline::transcript::{assemble, is_whitespace, trim_text};

fn strings(items: &[&str]) -> Vec<String> {
    items.iter().map(|s| s.to_string()).collect()
}

#[test]
fn two_seconds_of_silence_pass_the_default_limits() {
    let silence = vec![0i16; 32000];
    let bytes = encode_minimal_container(&silence);
    let samples = prepare_samples(&bytes, &AudioConstraints::default());
    assert_eq!(samples, Ok(PcmSampleBuffer { samples: silence }));
    let buffer = samples.unwrap();
    assert_eq!(buffer.len(), 32000);
    assert_eq!(buffer.duration_millis(), 2000);
    let result = assemble(&Vec::new());
    assert_eq!(result.text, "");
    assert_eq!(result.segment_count, 0);
}

#[test]
fn half_a_second_is_too_short_for_the_default_limits() {
    let bytes = encode_minimal_container(&vec![0i16; 8000]);
    let samples = prepare_samples(&bytes, &AudioConstraints::default());
    assert_eq!(samples, Err(PipelineError::DurationTooShort));
}

#[test]
fn buffers_come_from_containers() {
    let bytes = encode_minimal_container(&[4, 5, 6]);
    let buffer = PcmSampleBuffer::from_container(&bytes).unwrap();
    assert_eq!(buffer.samples, vec![4, 5, 6]);
    assert_eq!(buffer.len(), 3);
    assert_eq!(buffer.duration_millis(), 0);
    assert_eq!(
        PcmSampleBuffer::from_container(&bytes[..40]),
        Err(AudioError::MalformedContainer)
    );
    assert_eq!(
        PcmSampleBuffer::from_container(&encode_minimal_container(&[])),
        Err(AudioError::EmptySampleBuffer)
    );
}

#[test]
fn preparation_reports_the_first_failure() {
    let limits = AudioConstraints { min_duration_seconds: 0, max_duration_seconds: 0 };
    assert_eq!(prepare_samples(&[0; 10], &limits), Err(PipelineError::MalformedContainer));
    let mut no_data = encode_minimal_container(&[1, 2]);
    no_data[36] = b'x';
    assert_eq!(prepare_samples(&no_data, &limits), Err(PipelineError::NoDataChunk));
    let mut odd = encode_minimal_container(&[1, 2]);
    odd.pop();
    assert_eq!(prepare_samples(&odd, &limits), Err(PipelineError::MisalignedSampleData));
    let empty = encode_minimal_container(&[]);
    assert_eq!(prepare_samples(&empty, &limits), Err(PipelineError::EmptySampleBuffer));
    let some = encode_minimal_container(&[1, 2]);
    assert_eq!(prepare_samples(&some, &limits), Err(PipelineError::DurationTooLong));
}

#[test]
fn segments_are_trimmed_and_joined_by_single_spaces() {
    let segments = strings(&["  Hello,", "", "   ", "\tworld. \n", " How are  you?"]);
    let result = assemble(&segments);
    assert_eq!(result.text, "Hello, world. How are  you?");
    assert_eq!(result.segment_count, 5);
    assert_eq!(result.char_len, 27);
}

#[test]
fn no_usable_segment_gives_the_empty_transcript() {
    assert_eq!(assemble(&strings(&[])).text, "");
    let blank = assemble(&strings(&["", " ", "\n\t", "\u{a0}\u{3000}"]));
    assert_eq!(blank.text, "");
    assert_eq!(blank.segment_count, 4);
    assert_eq!(blank.char_len, 0);
}

#[test]
fn character_length_counts_characters() {
    let result = assemble(&strings(&[" h\u{e9}llo ", "\u{4e16}\u{754c}"]));
    assert_eq!(result.text, "h\u{e9}llo \u{4e16}\u{754c}");
    assert_eq!(result.char_len, 8);
    assert_eq!(result.segment_count, 2);
}

#[test]
fn unicode_white_space_is_trimmed() {
    let result = assemble(&strings(&["\u{2003}a\u{2003}b\u{2009}", "\u{85}c\u{1680}"]));
    assert_eq!(result.text, "a\u{2003}b c");
    let kept = assemble(&strings(&["\u{200b}a\u{200b}"]));
    assert_eq!(kept.text, "\u{200b}a\u{200b}");
}

#[test]
fn converter_command_line_is_fixed() {
    assert_eq!(converter_program(), "ffmpeg");
    assert_eq!(
        converter_arguments("/tmp/in.bin", "/tmp/out.wav"),
        strings(&[
            "-i",
            "/tmp/in.bin",
            "-ar",
            "16000",
            "-ac",
            "1",
            "-c:a",
            "pcm_s16le",
            "-f",
            "wav",
            "-y",
            "/tmp/out.wav"
        ])
    );
}

#[test]
fn probe_command_line_is_fixed() {
    assert_eq!(probe_program(), "ffprobe");
    assert_eq!(
        probe_arguments("/tmp/a b.mp3"),
        strings(&[
            "-v",
            "quiet",
            "-show_entries",
            "format=duration",
            "-of",
            "csv=p=0",
            "/tmp/a b.mp3"
        ])
    );
}

#[test]
fn converter_outcome_is_read_from_status_and_stderr() {
    assert_eq!(
        interpret_outcome(ConversionOutcome::Exited { success: true, stderr: "noise".to_string() }),
        Ok(())
    );
    assert_eq!(
        interpret_outcome(ConversionOutcome::Exited {
            success: false,
            stderr: "Invalid data found".to_string()
        }),
        Err(NormalizeError::Conversion("Invalid data found".to_string()))
    );
    assert_eq!(
        interpret_outcome(ConversionOutcome::LaunchFailed("No such file".to_string())),
        Err(NormalizeError::ToolUnavailable("No such file".to_string()))
    );
}

#[test]
fn scratch_path_is_made_of_its_parts() {
    assert_eq!(scratch_path("/tmp", "upload-", "abc", ".bin"), "/tmp/upload-abc.bin");
    assert_eq!(scratch_path("", "", "", ""), "/");
    assert_eq!(scratch_path("/var/scratch", "", "id", ".wav"), "/var/scratch/id.wav");
}

#[test]
fn allocated_paths_hold_a_random_identifier() {
    let file = ScratchFile::allocate("/tmp/work", "normalized-", ".wav");
    let path = file.path.as_str();
    assert!(path.starts_with("/tmp/work/normalized-"));
    assert!(path.ends_with(".wav"));
    let id = &path["/tmp/work/normalized-".len()..path.len() - ".wav".len()];
    assert_eq!(id.chars().count(), 36);
    assert!(id.chars().all(|c| c == '-' || c.is_ascii_digit() || ('a'..='f').contains(&c)));
    assert_eq!(id.chars().filter(|c| *c == '-').count(), 4);
}

#[test]
fn allocated_paths_do_not_collide() {
    let mut seen = std::collections::HashSet::new();
    for _ in 0..200 {
        let file = ScratchFile::allocate("/tmp", "upload-", ".bin");
        assert!(seen.insert(file.path));
    }
}

#[test]
fn release_hands_out_every_registered_file_once() {
    let mut set = ScratchSet::new();
    assert_eq!(set.release(), Vec::<String>::new());
    set.register(ScratchFile { path: "/tmp/a".to_string() });
    set.register(ScratchFile { path: "/tmp/b".to_string() });
    assert_eq!(set.pending.len(), 2);
    assert_eq!(set.release(), strings(&["/tmp/a", "/tmp/b"]));
    assert_eq!(set.pending.len(), 0);
    assert_eq!(set.release(), Vec::<String>::new());
    set.register(ScratchFile { path: "/tmp/c".to_string() });
    assert_eq!(set.release(), strings(&["/tmp/c"]));
}

#[test]
fn thread_count_is_bounded_by_cores_and_cap() {
    assert_eq!(MAX_THREADS, 4);
    assert_eq!(thread_count(0), 1);
    assert_eq!(thread_count(1), 1);
    assert_eq!(thread_count(2), 2);
    assert_eq!(thread_count(4), 4);
    assert_eq!(thread_count(5), 4);
    assert_eq!(thread_count(usize::MAX), 4);
}

#[test]
fn deployment_parameters_are_deterministic() {
    let fixed = RecognitionParameters::for_deployment(8, Language::Fixed("en".to_string()));
    assert_eq!(fixed.n_threads, 4);
    assert_eq!(fixed.language, Language::Fixed("en".to_string()));
    assert_eq!(fixed.strategy, SamplingStrategy::Greedy { best_of: 1 });
    assert!(!fixed.translate);
    assert!(fixed.suppress_blank);
    assert!(fixed.suppress_non_speech_tokens);
    assert!(!fixed.print_progress && !fixed.print_realtime && !fixed.print_timestamps);
    assert_eq!(fixed.language.code(), "en");
    assert_eq!(Language::Auto.code(), "auto");
    let auto = RecognitionParameters::for_deployment(2, Language::Auto);
    assert_eq!(auto.n_threads, 2);
    assert_eq!(auto.language, Language::Auto);
}

#[test]
fn successful_run_passes_every_stage_and_releases() {
    let mut run = Run::start();
    let expected = [
        (Stage::Received, Action::WriteScratchInput),
        (Stage::ScratchWritten, Action::Normalize),
        (Stage::Normalized, Action::DecodeContainer),
        (Stage::Decoded, Action::ConvertSamples),
        (Stage::Converted, Action::StartInference),
        (Stage::Transcribing, Action::AssembleTranscript),
        (Stage::Assembled, Action::ReleaseScratch),
    ];
    for (stage, action) in expected {
        assert_eq!(run.stage, stage);
        assert_eq!(run.next_action(), action);
        assert!(!run.is_finished());
        run = run.advance(Event::Completed);
    }
    assert_eq!(run.stage, Stage::Released);
    assert_eq!(run.next_action(), Action::Finish);
    assert!(run.is_finished());
    assert_eq!(run.failure, None);
}

#[test]
fn failure_at_any_stage_still_releases_scratch() {
    for completed in 0..6 {
        let mut run = Run::start();
        for _ in 0..completed {
            run = run.advance(Event::Completed);
        }
        run = run.advance(Event::Failed(PipelineError::Inference(format!("at {}", completed))));
        assert_eq!(run.stage, Stage::Failed);
        assert_eq!(run.next_action(), Action::ReleaseScratch);
        assert!(!run.is_finished());
        run = run.advance(Event::Completed);
        assert_eq!(run.stage, Stage::Released);
        assert_eq!(run.next_action(), Action::Finish);
        assert_eq!(run.failure, Some(PipelineError::Inference(format!("at {}", completed))));
    }
}

#[test]
fn cleanup_failure_never_masks_the_outcome() {
    let failed = Run::start().advance(Event::Failed(PipelineError::NoDataChunk));
    let released = failed.advance(Event::Failed(PipelineError::ScratchWrite("busy".to_string())));
    assert_eq!(released.stage, Stage::Released);
    assert_eq!(released.failure, Some(PipelineError::NoDataChunk));

    let mut run = Run::start();
    for _ in 0..6 {
        run = run.advance(Event::Completed);
    }
    assert_eq!(run.stage, Stage::Assembled);
    let released = run.advance(Event::Failed(PipelineError::ScratchWrite("busy".to_string())));
    assert_eq!(released.stage, Stage::Released);
    assert_eq!(released.failure, None);
    let still = released.advance(Event::Completed);
    assert_eq!(still.stage, Stage::Released);
}

#[test]
fn stage_failures_are_tagged() {
    assert_eq!(
        PipelineError::from_container(ContainerError::Malformed),
        PipelineError::MalformedContainer
    );
    assert_eq!(
        PipelineError::from_container(ContainerError::NoDataChunk),
        PipelineError::NoDataChunk
    );
    assert_eq!(
        PipelineError::from_samples(SampleError::Misaligned),
        PipelineError::MisalignedSampleData
    );
    assert_eq!(PipelineError::from_samples(SampleError::Empty), PipelineError::EmptySampleBuffer);
    assert_eq!(
        PipelineError::from_audio(AudioError::MalformedContainer),
        PipelineError::MalformedContainer
    );
    assert_eq!(PipelineError::from_audio(AudioError::NoDataChunk), PipelineError::NoDataChunk);
    assert_eq!(
        PipelineError::from_audio(AudioError::MisalignedSampleData),
        PipelineError::MisalignedSampleData
    );
    assert_eq!(
        PipelineError::from_audio(AudioError::EmptySampleBuffer),
        PipelineError::EmptySampleBuffer
    );
    assert_eq!(
        PipelineError::from_duration(DurationError::TooShort),
        PipelineError::DurationTooShort
    );
    assert_eq!(
        PipelineError::from_duration(DurationError::TooLong),
        PipelineError::DurationTooLong
    );
    assert_eq!(
        PipelineError::from_normalize(NormalizeError::ToolUnavailable("a".to_string())),
        PipelineError::ToolUnavailable("a".to_string())
    );
    assert_eq!(
        PipelineError::from_normalize(NormalizeError::Conversion("b".to_string())),
        PipelineError::Conversion("b".to_string())
    );
}

#[test]
fn failures_name_their_stage_and_fault() {
    let text = || "x".to_string();
    let cases = [
        (PipelineError::ScratchWrite(text()), FailedStage::ScratchWrite, Fault::Server),
        (PipelineError::ToolUnavailable(text()), FailedStage::Normalization, Fault::Server),
        (PipelineError::Conversion(text()), FailedStage::Normalization, Fault::Client),
        (PipelineError::ScratchRead(text()), FailedStage::ScratchRead, Fault::Server),
        (PipelineError::MalformedContainer, FailedStage::Decoding, Fault::Client),
        (PipelineError::NoDataChunk, FailedStage::Decoding, Fault::Client),
        (PipelineError::MisalignedSampleData, FailedStage::Conversion, Fault::Client),
        (PipelineError::EmptySampleBuffer, FailedStage::Conversion, Fault::Client),
        (PipelineError::DurationTooShort, FailedStage::Validation, Fault::Client),
        (PipelineError::DurationTooLong, FailedStage::Validation, Fault::Client),
        (PipelineError::SessionCreation(text()), FailedStage::Inference, Fault::Server),
        (PipelineError::Inference(text()), FailedStage::Inference, Fault::Server),
        (PipelineError::WorkerPanic(text()), FailedStage::Inference, Fault::Server),
    ];
    for (error, stage, fault) in cases {
        assert_eq!(error.stage(), stage);
        assert_eq!(error.fault(), fault);
    }
}

#[test]
fn white_space_is_the_unicode_property() {
    for code in 0..=0x10ffffu32 {
        if let Some(c) = char::from_u32(code) {
            assert_eq!(is_whitespace(c), c.is_whitespace(), "U+{:04X}", code);
        }
    }
}

#[test]
fn trimming_removes_white_space_at_both_ends_only() {
    let cases = [
        "",
        " ",
        "a",
        " a",
        "a ",
        "  a b  ",
        "\t\n\r a\u{a0}b \u{3000}\u{2028}",
        "\u{200b} a \u{200b}",
        " \u{e9}t\u{e9} ",
        "\n\n",
        "a\tb",
    ];
    for case in cases {
        assert_eq!(trim_text(case), case.trim(), "{:?}", case);
    }
    assert_eq!(trim_text("  a b  "), "a b");
}

#[test]
fn transcript_never_begins_or_ends_with_white_space() {
    let lists = [
        strings(&[" a ", " ", "b\n"]),
        strings(&["", "\t"]),
        strings(&["\u{3000}x"]),
        strings(&["one", "two", "three "]),
        strings(&[" ", " lead", " "]),
    ];
    for segments in lists {
        let text = assemble(&segments).text;
        assert_eq!(text.trim(), text);
        let kept: Vec<&str> =
            segments.iter().map(|s| s.trim()).filter(|s| !s.is_empty()).collect();
        assert_eq!(text, kept.join(" "));
    }
}

#[test]
fn every_run_is_released_within_seven_events() {
    for pattern in 0..128u32 {
        let mut run = Run::start();
        let mut release_asked = false;
        for step in 0..7 {
            if run.next_action() == Action::ReleaseScratch {
                release_asked = true;
            }
            let event = if pattern & (1 << step) == 0 {
                Event::Completed
            } else {
                Event::Failed(PipelineError::ScratchRead(format!("{}", step)))
            };
            run = run.advance(event);
        }
        assert!(run.is_finished(), "{:07b}", pattern);
        assert!(release_asked, "{:07b}", pattern);
        assert_eq!(run.next_action(), Action::Finish);
    }
}

#[test]
fn distinct_identifiers_give_distinct_paths() {
    let first = "67e55044-10b1-426f-9247-bb680e5fe0c8";
    let second = "67e55044-10b1-426f-9247-bb680e5fe0c9";
    assert_ne!(
        scratch_path("/tmp", "upload-", first, ".bin"),
        scratch_path("/tmp", "upload-", second, ".bin")
    );
    assert_eq!(
        scratch_path("/tmp", "upload-", first, ".bin"),
        "/tmp/upload-67e55044-10b1-426f-9247-bb680e5fe0c8.bin"
    );
}
