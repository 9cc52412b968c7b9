use platy::capture::{
    device_id_for_uid, find_device, input_device_menu, output_device_menu, plan_capture, selector_of,
    stream_command, DeviceInfo, DeviceSelector, DeviceType, RecordingOptions,
};
use platy::format::{encode_samples, negotiate_format, transcoder_format_name, SampleBuffer, SampleFormat, StreamBuildError};
use platy::layout::{conversation_dir, segment_name, stream_dir, transcript_name, StreamSide};
use platy::manifest::{
    concat_directive, expected_segments, manifest_caught_up, new_entries, parse_manifest,
    SEGMENT_SECONDS,
};
use platy::session::{AudioController, LivenessAction, SessionError};
use platy::error::RecordingError;
use platy::recorder::{stop_actions, StopAction, Teardown};
use platy::text::decimal_string;
use platy::transcoder::{concat_args, filters, merge_args, quit_directive, segmenting_args};

fn strings(v: &[&str]) -> Vec<String> {
    v.iter().map(|s| s.to_string()).collect()
}

fn options(input: &str, output: &str) -> RecordingOptions {
    RecordingOptions {
        user_id: "user".to_string(),
        audio_input_name: input.to_string(),
        audio_output_name: output.to_string(),
    }
}

#[test]
fn decimal_numbers() {
    assert_eq!(decimal_string(0), "0");
    assert_eq!(decimal_string(7), "7");
    assert_eq!(decimal_string(1234567890), "1234567890");
    assert_eq!(decimal_string(u64::MAX), "18446744073709551615");
}

#[test]
fn manifest_lines_are_trimmed_and_blank_ones_skipped() {
    let m = parse_manifest("audio_recording_000.wav\n\n  audio_recording_001.wav \r\naudio_recording_002.wav");
    assert_eq!(m, strings(&["audio_recording_000.wav", "audio_recording_001.wav", "audio_recording_002.wav"]));
    assert!(parse_manifest("").is_empty());
    assert!(parse_manifest("\n \n\t\n").is_empty());
}

#[test]
fn expected_segments_is_floor_of_elapsed_over_segment() {
    assert_eq!(SEGMENT_SECONDS, 3);
    assert_eq!(expected_segments(7, 3), 2);
    assert_eq!(expected_segments(9, 3), 3);
    assert_eq!(expected_segments(2, 3), 0);
    assert_eq!(expected_segments(0, 3), 0);
    assert_eq!(expected_segments(10, 5), 2);
}

#[test]
fn stop_waits_for_the_manifest_to_catch_up() {
    let two = "audio_recording_000.wav\naudio_recording_001.wav\n";
    assert!(manifest_caught_up(two, 7, 3));
    assert!(!manifest_caught_up(two, 9, 3));
    assert!(manifest_caught_up("", 2, 3));
    assert!(!manifest_caught_up("", 3, 3));
}

#[test]
fn new_entries_are_those_not_seen_in_manifest_order() {
    let seen = strings(&["a.wav", "b.wav"]);
    let current = strings(&["a.wav", "b.wav", "c.wav", "d.wav", "c.wav"]);
    assert_eq!(new_entries(&seen, &current), strings(&["c.wav", "d.wav"]));
    assert!(new_entries(&current, &current).is_empty());
}

#[test]
fn concat_directive_lists_segments_in_order() {
    let d = concat_directive(&strings(&["a.wav", "b.wav"]));
    assert_eq!(d, "file 'a.wav'\nfile 'b.wav'\n");
    assert_eq!(concat_directive(&Vec::new()), "");
}

#[test]
fn layout_paths() {
    let dir = conversation_dir("/data", 42);
    assert_eq!(dir, "/data/chunks/audio/42");
    assert_eq!(stream_dir(&dir, StreamSide::Input), "/data/chunks/audio/42/input");
    assert_eq!(stream_dir(&dir, StreamSide::Output), "/data/chunks/audio/42/output");
    assert_eq!(segment_name(0), "audio_recording_000.wav");
    assert_eq!(segment_name(7), "audio_recording_007.wav");
    assert_eq!(segment_name(42), "audio_recording_042.wav");
    assert_eq!(segment_name(1234), "audio_recording_1234.wav");
    assert_eq!(transcript_name("audio_recording_001.wav"), "audio_recording_001.json");
    assert_eq!(transcript_name("segment"), "segment.json");
    assert_eq!(transcript_name("wav"), "wav.json");
}

#[test]
fn format_negotiation_prefers_float_then_16_32_8_bit() {
    assert_eq!(negotiate_format(&vec![SampleFormat::I8, SampleFormat::I32, SampleFormat::I16, SampleFormat::F32]), Ok(SampleFormat::F32));
    assert_eq!(negotiate_format(&vec![SampleFormat::I8, SampleFormat::I32, SampleFormat::I16]), Ok(SampleFormat::I16));
    assert_eq!(negotiate_format(&vec![SampleFormat::U8, SampleFormat::I8, SampleFormat::I32]), Ok(SampleFormat::I32));
    assert_eq!(negotiate_format(&vec![SampleFormat::U16, SampleFormat::I8]), Ok(SampleFormat::I8));
    assert_eq!(negotiate_format(&vec![SampleFormat::U8, SampleFormat::F64, SampleFormat::U16]), Err(StreamBuildError::UnsupportedFormat));
    assert_eq!(negotiate_format(&vec![]), Err(StreamBuildError::UnsupportedFormat));
    assert_eq!(transcoder_format_name(SampleFormat::I8), "s8");
    assert_eq!(transcoder_format_name(SampleFormat::I16), "s16le");
    assert_eq!(transcoder_format_name(SampleFormat::I32), "s32le");
    assert_eq!(transcoder_format_name(SampleFormat::F32), "f32le");
}

#[test]
fn samples_become_little_endian_bytes() {
    assert_eq!(encode_samples(&SampleBuffer::I16(vec![1, -2, 0x1234])), vec![1, 0, 0xfe, 0xff, 0x34, 0x12]);
    assert_eq!(encode_samples(&SampleBuffer::I32(vec![1, -2])), vec![1, 0, 0, 0, 0xfe, 0xff, 0xff, 0xff]);
    assert_eq!(encode_samples(&SampleBuffer::I32(vec![0x01020304])), vec![4, 3, 2, 1]);
    assert_eq!(encode_samples(&SampleBuffer::I8(vec![5, -1, -128])), vec![5, 0xff, 0x80]);
    assert!(encode_samples(&SampleBuffer::I16(vec![])).is_empty());
}

#[test]
fn segmenting_command_line() {
    let args = segmenting_args(SampleFormat::F32, 44100, 2, "/d/segment_list.txt", "/d/audio_recording_%03d.wav");
    let expected = strings(&[
        "-f", "f32le", "-ar", "44100", "-ac", "2", "-thread_queue_size", "4096", "-i", "pipe:0",
        "-af", "loudnorm,aresample=async=1:min_hard_comp=0.100000:first_pts=0:osr=16000",
        "-ac", "1", "-c:a", "pcm_s16le", "-async", "1", "-f", "segment", "-segment_time", "3",
        "-segment_time_delta", "0.01", "-segment_list", "/d/segment_list.txt", "-reset_timestamps",
        "1", "/d/audio_recording_%03d.wav",
    ]);
    assert_eq!(args, expected);
    assert_eq!(
        filters(6),
        "pan=stereo|FL=FL+0.5*FC|FR=FR+0.5*FC,loudnorm,aresample=async=1:min_hard_comp=0.100000:first_pts=0:osr=16000"
    );
    assert_eq!(quit_directive(), "q\n");
}

#[test]
fn concat_and_merge_command_lines() {
    assert_eq!(
        concat_args("/d/concat.txt", "/d/combined.wav"),
        strings(&["-f", "concat", "-safe", "0", "-i", "/d/concat.txt", "-c", "copy", "/d/combined.wav"])
    );
    assert_eq!(
        merge_args("/c/input/combined.wav", "/c/output/combined.wav", "/c/combined.wav"),
        strings(&[
            "-i", "/c/input/combined.wav", "-i", "/c/output/combined.wav", "-filter_complex",
            "[0:a][1:a]amerge=inputs=2,pan=mono|c0=.5*c0+.5*c1[aout]", "-map", "[aout]", "-c:a",
            "pcm_s16le", "/c/combined.wav",
        ])
    );
}

#[test]
fn device_selectors() {
    assert!(matches!(selector_of(""), DeviceSelector::Default));
    assert!(matches!(selector_of("None"), DeviceSelector::Disabled));
    match selector_of("USB Mic") {
        DeviceSelector::Named(n) => assert_eq!(n, "USB Mic"),
        other => panic!("unexpected selector {:?}", other),
    }
    assert!(matches!(selector_of("none"), DeviceSelector::Named(_)));
}

#[test]
fn none_sentinel_opens_no_stream_on_that_side() {
    let plan = plan_capture(&options("None", ""), "/c");
    assert!(plan.input.is_none());
    let out = plan.output.expect("output stream");
    assert_eq!(out.dir, "/c/output");
    assert_eq!(out.manifest, "/c/output/segment_list.txt");
    assert_eq!(out.pattern, "/c/output/audio_recording_%03d.wav");
    assert!(matches!(out.device, DeviceSelector::Default));

    let plan = plan_capture(&options("None", "None"), "/c");
    assert!(plan.input.is_none() && plan.output.is_none());
}

#[test]
fn stream_command_uses_the_negotiated_format() {
    let plan = plan_capture(&options("Mic", ""), "/c");
    let input = plan.input.expect("input stream");
    let cmd = stream_command(&input, &vec![SampleFormat::I16, SampleFormat::U8], 48000, 1).ok().expect("command");
    assert_eq!(cmd.format, SampleFormat::I16);
    assert_eq!(cmd.args[1], "s16le");
    assert_eq!(cmd.args[3], "48000");
    assert!(matches!(
        stream_command(&input, &vec![SampleFormat::U8], 48000, 1),
        Err(StreamBuildError::UnsupportedFormat)
    ));
}

#[test]
fn devices_are_found_by_name_and_direction() {
    let devices = vec![
        DeviceInfo { id: 10, uid: "spk".to_string(), name: "Speakers".to_string(), input_configs: 0, output_configs: 2 },
        DeviceInfo { id: 11, uid: "mic".to_string(), name: "Mic".to_string(), input_configs: 1, output_configs: 0 },
        DeviceInfo { id: 12, uid: "spk-in".to_string(), name: "Speakers".to_string(), input_configs: 3, output_configs: 0 },
    ];
    assert_eq!(device_id_for_uid(&devices, "mic"), Some(11));
    assert_eq!(device_id_for_uid(&devices, "spk-in"), Some(12));
    assert_eq!(device_id_for_uid(&devices, "spk-"), None);
    assert_eq!(find_device(&devices, "Mic", DeviceType::AudioInput), Some(1));
    assert_eq!(find_device(&devices, "Speakers", DeviceType::AudioOutput), Some(0));
    assert_eq!(find_device(&devices, "Speakers", DeviceType::AudioInput), Some(2));
    assert_eq!(find_device(&devices, "Mic", DeviceType::AudioOutput), None);
    assert_eq!(find_device(&devices, "Nothing", DeviceType::AudioInput), None);
}

#[test]
fn device_menus() {
    let names = strings(&["A", "Built-in", "B", "Built-in"]);
    assert_eq!(input_device_menu(&names, "Built-in"), strings(&["Built-in", "A", "B"]));
    assert_eq!(output_device_menu(&strings(&["Platy", "A", "Platy Speaker"])), strings(&["A", "Platy Speaker"]));
}

#[test]
fn stop_without_start_is_no_active_session() {
    let mut c = AudioController::new("/data");
    assert!(!c.is_recording());
    assert!(matches!(c.stop(1), Err(SessionError::NoActiveSession)));
    assert!(!c.is_recording());
}

#[test]
fn one_session_at_a_time() {
    let mut c = AudioController::new("/data");
    assert!(c.start(&options("", ""), 5).is_ok());
    assert!(c.is_recording());
    assert_eq!(c.active_conversation(), Some(5));
    assert!(matches!(c.start(&options("", ""), 6), Err(SessionError::AlreadyRecording)));
    assert!(matches!(c.stop(6), Err(SessionError::OtherConversation)));
    assert!(c.is_recording());
    assert!(c.stop(5).is_ok());
    assert!(!c.is_recording());
    assert!(c.start(&options("", ""), 6).is_ok());
    assert_eq!(c.abort(), Some(6));
    assert!(!c.is_recording());
}

#[test]
fn liveness_drives_start_and_stop() {
    let mut c = AudioController::new("/data");
    assert_eq!(c.liveness_action(true), LivenessAction::StartRecording);
    assert_eq!(c.liveness_action(false), LivenessAction::Nothing);
    c.start(&options("", ""), 1).ok().expect("started");
    assert_eq!(c.liveness_action(true), LivenessAction::Nothing);
    assert_eq!(c.liveness_action(false), LivenessAction::StopRecording);
}

#[test]
fn seven_seconds_with_both_streams_then_stop() {
    let mut c = AudioController::new("/data");
    let plan = c.start(&options("", ""), 9).ok().expect("started");
    let input = plan.input.expect("input");
    let output = plan.output.expect("output");
    assert_eq!(input.dir, "/data/chunks/audio/9/input");
    assert_eq!(output.dir, "/data/chunks/audio/9/output");
    // After seven seconds two segments are closed and a third is in flight.
    assert_eq!(expected_segments(7, SEGMENT_SECONDS), 2);
    let partial = "audio_recording_000.wav\naudio_recording_001.wav\n";
    let all = "audio_recording_000.wav\naudio_recording_001.wav\naudio_recording_002.wav\n";
    assert!(manifest_caught_up(partial, 7, SEGMENT_SECONDS));
    assert_eq!(parse_manifest(all).len(), 3);
    let fin = c.stop(9).ok().expect("stopped");
    assert_eq!(fin.dir, "/data/chunks/audio/9");
    assert_eq!(fin.input.manifest, "/data/chunks/audio/9/input/segment_list.txt");
    assert_eq!(fin.input.directive, "/data/chunks/audio/9/input/concat.txt");
    assert_eq!(fin.output.combined, "/data/chunks/audio/9/output/combined.wav");
    assert_eq!(fin.merged, "/data/chunks/audio/9/combined.wav");
    assert_eq!(fin.transcription, "/data/chunks/audio/9/transcription.json");
    assert_eq!(fin.summary, "/data/chunks/audio/9/summary.json");
    assert_eq!(fin.merge_args[1], "/data/chunks/audio/9/input/combined.wav");
    assert_eq!(fin.merge_args[3], "/data/chunks/audio/9/output/combined.wav");
    assert_eq!(fin.input.concat_args[5], "/data/chunks/audio/9/input/concat.txt");
    assert_eq!(
        concat_directive(&parse_manifest(all)),
        "file 'audio_recording_000.wav'\nfile 'audio_recording_001.wav'\nfile 'audio_recording_002.wav'\n"
    );
    assert!(!c.is_recording());
}

#[test]
fn deleting_a_recording_removes_its_conversation_dir() {
    let c = AudioController::new("/data");
    assert_eq!(c.recording_dir(12), "/data/chunks/audio/12");
}

#[test]
fn teardown_waits_then_quits_then_stops_then_kills() {
    let both = stop_actions(true, true);
    assert_eq!(
        both,
        vec![
            StopAction::WaitForSegments(StreamSide::Input),
            StopAction::WaitForSegments(StreamSide::Output),
            StopAction::SendQuit(StreamSide::Input),
            StopAction::SendQuit(StreamSide::Output),
            StopAction::StopCapture(StreamSide::Input),
            StopAction::StopCapture(StreamSide::Output),
            StopAction::KillTranscoder(StreamSide::Input),
            StopAction::KillTranscoder(StreamSide::Output),
        ]
    );
    assert_eq!(
        stop_actions(false, true),
        vec![
            StopAction::WaitForSegments(StreamSide::Output),
            StopAction::SendQuit(StreamSide::Output),
            StopAction::StopCapture(StreamSide::Output),
            StopAction::KillTranscoder(StreamSide::Output),
        ]
    );
    assert!(stop_actions(false, false).is_empty());
}

#[test]
fn teardown_reports_the_first_failure() {
    let mut t = Teardown::new();
    t.note(Ok(()));
    t.note(Err(RecordingError::TranscoderIo));
    t.note(Err(RecordingError::PlatformAudio(-1)));
    t.note(Ok(()));
    assert_eq!(t.finish(), Err(RecordingError::TranscoderIo));
    let mut t = Teardown::new();
    t.note(Ok(()));
    assert_eq!(t.finish(), Ok(()));
    assert_eq!(Teardown::new().finish(), Ok(()));
}
