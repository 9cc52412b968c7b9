use platy::segment::{check_segment_format, concat_samples, decode_segment, SegmentReadError, WavFormat};
use platy::summary::{action_items_prompt, summary_model, summary_prompt, title_prompt, ActionItem, ActionItems, SummaryJSON};
use platy::transcript::{group_spans, EngineSegment, TranscriptionJSON};
use platy::watcher::SegmentWatcher;

fn wav_bytes(channels: u16, bits: u16, float: bool, samples: &[i32]) -> Vec<u8> {
    let spec = hound::WavSpec {
        channels,
        sample_rate: 16000,
        bits_per_sample: bits,
        sample_format: if float { hound::SampleFormat::Float } else { hound::SampleFormat::Int },
    };
    let mut cursor = std::io::Cursor::new(Vec::new());
    {
        let mut w = hound::WavWriter::new(&mut cursor, spec).unwrap();
        for s in samples {
            if float {
                w.write_sample(*s as f32).unwrap();
            } else if bits == 16 {
                w.write_sample(*s as i16).unwrap();
            } else {
                w.write_sample(*s).unwrap();
            }
        }
        w.finalize().unwrap();
    }
    cursor.into_inner()
}

fn rec(text: &str, turn: bool) -> EngineSegment {
    EngineSegment { start_ms: 0, end_ms: 0, text: text.to_string(), speaker_turn_next: turn }
}

#[test]
fn mono_16_bit_segments_decode_to_their_samples() {
    let bytes = wav_bytes(1, 16, false, &[0, 1, -1, 32767, -32768]);
    assert_eq!(decode_segment(&bytes), Ok(vec![0, 1, -1, 32767, -32768]));
    let empty = wav_bytes(1, 16, false, &[]);
    assert_eq!(decode_segment(&empty), Ok(vec![]));
}

#[test]
fn other_segments_are_refused() {
    assert_eq!(decode_segment(&wav_bytes(2, 16, false, &[1, 2])), Err(SegmentReadError::NotMono));
    assert_eq!(decode_segment(&wav_bytes(1, 32, false, &[1, 2])), Err(SegmentReadError::NotInt16));
    assert_eq!(decode_segment(&wav_bytes(1, 32, true, &[1, 2])), Err(SegmentReadError::NotInt16));
    assert_eq!(decode_segment(&b"not a wave file".to_vec()), Err(SegmentReadError::Malformed));
    let mut cut = wav_bytes(1, 16, false, &[1, 2, 3, 4]);
    cut.truncate(20);
    assert_eq!(decode_segment(&cut), Err(SegmentReadError::Malformed));
}

#[test]
fn segment_format_check() {
    let ok = WavFormat { channels: 1, sample_rate: 16000, bits_per_sample: 16, is_float: false };
    assert_eq!(check_segment_format(ok), Ok(()));
    assert_eq!(check_segment_format(WavFormat { channels: 2, ..ok }), Err(SegmentReadError::NotMono));
    assert_eq!(check_segment_format(WavFormat { bits_per_sample: 8, ..ok }), Err(SegmentReadError::NotInt16));
    assert_eq!(check_segment_format(WavFormat { is_float: true, ..ok }), Err(SegmentReadError::NotInt16));
}

#[test]
fn joined_segments_keep_every_sample() {
    // Seven samples cut at three: two full segments and one partial.
    let segments = vec![vec![1, 2, 3], vec![4, 5, 6], vec![7]];
    assert_eq!(concat_samples(&segments), vec![1, 2, 3, 4, 5, 6, 7]);
    assert!(concat_samples(&vec![]).is_empty());
    let decoded: Vec<Vec<i16>> = segments
        .iter()
        .map(|s| decode_segment(&wav_bytes(1, 16, false, &s.iter().map(|x| *x as i32).collect::<Vec<_>>())).unwrap())
        .collect();
    assert_eq!(concat_samples(&decoded).len(), 7);
}

#[test]
fn spans_split_at_speaker_turns() {
    let records = vec![rec(" Hello", false), rec(" there.", true), rec(" Hi!", true), rec(" Bye.", false)];
    let t = group_spans(&records);
    assert_eq!(t.full_text, vec![" Hello there.".to_string(), " Hi!".to_string(), " Bye.".to_string()]);
    assert_eq!(group_spans(&vec![]).full_text, vec![String::new()]);
    assert_eq!(group_spans(&vec![rec("a", true)]).full_text, vec!["a".to_string(), String::new()]);
}

#[test]
fn transcribing_again_gives_the_same_spans() {
    let records = vec![rec("one", true), rec("two", false), rec("three", true)];
    assert_eq!(group_spans(&records).full_text, group_spans(&records).full_text);
}

#[test]
fn turns_are_joined_for_summarisation() {
    let t = TranscriptionJSON { full_text: vec!["a".to_string(), "b".to_string(), "c".to_string()] };
    assert_eq!(t.summary_input(), "a CHANGE_SPEAKER_TOKEN b CHANGE_SPEAKER_TOKEN c");
    assert_eq!(TranscriptionJSON { full_text: vec![] }.summary_input(), "");
    assert_eq!(TranscriptionJSON { full_text: vec!["x".to_string()] }.summary_input(), "x");
}

#[test]
fn transcripts_merge_in_order() {
    let parts = vec![
        TranscriptionJSON { full_text: vec!["a".to_string()] },
        TranscriptionJSON { full_text: vec![] },
        TranscriptionJSON { full_text: vec!["b".to_string(), "c".to_string()] },
    ];
    assert_eq!(TranscriptionJSON::merge(&parts).full_text, vec!["a".to_string(), "b".to_string(), "c".to_string()]);
}

#[test]
fn watcher_hands_out_each_segment_once_and_finishes_one_tick_after_stop() {
    let mut w = SegmentWatcher::new("/c/input");
    let jobs = w.tick("audio_recording_000.wav\n", false);
    assert_eq!(jobs.len(), 1);
    assert_eq!(jobs[0].segment, "/c/input/audio_recording_000.wav");
    assert_eq!(jobs[0].transcript, "/c/input/audio_recording_000.json");
    assert!(w.tick("audio_recording_000.wav\n", false).is_empty());
    let jobs = w.tick("audio_recording_000.wav\naudio_recording_001.wav\n", true);
    assert_eq!(jobs.len(), 1);
    assert_eq!(jobs[0].segment, "/c/input/audio_recording_001.wav");
    assert!(!w.is_finished());
    let jobs = w.tick("audio_recording_000.wav\naudio_recording_001.wav\naudio_recording_002.wav\n", true);
    assert_eq!(jobs.len(), 1);
    assert_eq!(jobs[0].segment, "/c/input/audio_recording_002.wav");
    assert!(w.is_finished());
    assert!(w.tick("audio_recording_003.wav\n", true).is_empty());
}

#[test]
fn summary_requests() {
    assert_eq!(summary_model(), "llama3:latest");
    assert_eq!(summary_prompt("text"), "Can you summarize this: text");
    assert_eq!(title_prompt("t"), "Can you generate a short meeting title from this: t");
    let p = action_items_prompt("the transcript");
    assert!(p.starts_with("Create action items from a transcript."));
    assert!(p.ends_with("transcript: the transcript"));
    let s = SummaryJSON::new(
        "sum".to_string(),
        ActionItems { action_items: vec![ActionItem { title: "call".to_string() }] },
    );
    assert_eq!(s.result, "sum");
    assert_eq!(s.action_items.len(), 1);
    assert_eq!(s.action_items[0].title, "call");
}
