//! Where a conversation's files live under the data directory.

use vstd::prelude::*;
use crate::text::{decimal, decimal_string};

verus! {

/// One of the two capture streams of a conversation.
#[derive(Clone, Copy, Debug, PartialEq, Eq, Structural)]
pub enum StreamSide {
    /// The microphone.
    Input,
    /// What the computer plays.
    Output,
}

/// The directory of a conversation's recording.
pub open spec fn conversation_dir_of(data_dir: Seq<char>, conversation_id: nat) -> Seq<char> {
    data_dir + "/chunks/audio/"@ + decimal(conversation_id)
}

/// The directory of a conversation's recording: `<data>/chunks/audio/<id>`.
pub fn conversation_dir(data_dir: &str, conversation_id: u64) -> (r: String)
    ensures
        r@ == conversation_dir_of(data_dir@, conversation_id as nat),
{
    let mut r = String::from_str(data_dir);
    r.append("/chunks/audio/");
    let id = decimal_string(conversation_id);
    r.append(id.as_str());
    r
}

/// The name of a stream's directory inside the conversation directory.
pub open spec fn side_name(side: StreamSide) -> Seq<char> {
    match side {
        StreamSide::Input => "input"@,
        StreamSide::Output => "output"@,
    }
}

/// `dir` joined with `name`.
pub open spec fn joined(dir: Seq<char>, name: Seq<char>) -> Seq<char> {
    dir + "/"@ + name
}

fn join(dir: &str, name: &str) -> (r: String)
    ensures
        r@ == joined(dir@, name@),
{
    let mut r = String::from_str(dir);
    r.append("/");
    r.append(name);
    r
}

/// A file of a stream directory.
pub fn stream_file(stream_dir: &str, name: &str) -> (r: String)
    ensures
        r@ == joined(stream_dir@, name@),
{
    join(stream_dir, name)
}

/// The directory that holds one stream's segments and manifest.
pub fn stream_dir(conversation_dir: &str, side: StreamSide) -> (r: String)
    ensures
        r@ == joined(conversation_dir@, side_name(side)),
{
    match side {
        StreamSide::Input => join(conversation_dir, "input"),
        StreamSide::Output => join(conversation_dir, "output"),
    }
}

/// The manifest of a stream directory.
pub fn manifest_path(stream_dir: &str) -> (r: String)
    ensures
        r@ == joined(stream_dir@, "segment_list.txt"@),
{
    join(stream_dir, "segment_list.txt")
}

/// The concatenation directive of a stream directory.
pub fn concat_list_path(stream_dir: &str) -> (r: String)
    ensures
        r@ == joined(stream_dir@, "concat.txt"@),
{
    join(stream_dir, "concat.txt")
}

/// The combined track of a stream directory, or the merged track of a
/// conversation directory.
pub fn combined_path(dir: &str) -> (r: String)
    ensures
        r@ == joined(dir@, "combined.wav"@),
{
    join(dir, "combined.wav")
}

/// The whole-conversation transcript.
pub fn transcription_path(conversation_dir: &str) -> (r: String)
    ensures
        r@ == joined(conversation_dir@, "transcription.json"@),
{
    join(conversation_dir, "transcription.json")
}

/// The summary of a conversation.
pub fn summary_path(conversation_dir: &str) -> (r: String)
    ensures
        r@ == joined(conversation_dir@, "summary.json"@),
{
    join(conversation_dir, "summary.json")
}

/// The file-name pattern the transcoder numbers segments with.
pub fn segment_pattern(stream_dir: &str) -> (r: String)
    ensures
        r@ == joined(stream_dir@, "audio_recording_%03d.wav"@),
{
    join(stream_dir, "audio_recording_%03d.wav")
}

/// `digits` padded with leading zeros to at least three characters.
pub open spec fn pad3(digits: Seq<char>) -> Seq<char> {
    if digits.len() >= 3 {
        digits
    } else if digits.len() == 2 {
        "0"@ + digits
    } else {
        "00"@ + digits
    }
}

/// The name of the segment numbered `index`.
pub open spec fn segment_name_of(index: nat) -> Seq<char> {
    "audio_recording_"@ + pad3(decimal(index)) + ".wav"@
}

/// The file name the transcoder gives the segment numbered `index`
/// (`audio_recording_007.wav`).
pub fn segment_name(index: u64) -> (r: String)
    ensures
        r@ == segment_name_of(index as nat),
{
    let digits = decimal_string(index);
    let n = digits.unicode_len();
    let mut r = String::from_str("audio_recording_");
    if n == 1 {
        r.append("00");
    } else if n == 2 {
        r.append("0");
    }
    proof {
        lemma_decimal_nonempty(index as nat);
    }
    r.append(digits.as_str());
    r.append(".wav");
    r
}

proof fn lemma_decimal_nonempty(n: nat)
    ensures
        decimal(n).len() >= 1,
    decreases n,
{
    if n >= 10 {
        lemma_decimal_nonempty(n / 10);
    }
}

/// The name of the transcript kept beside a segment: its `.wav` suffix
/// replaced by `.json`, or `.json` appended where it has none.
pub open spec fn transcript_name_of(segment: Seq<char>) -> Seq<char> {
    if segment.len() >= 4 && segment.subrange(segment.len() - 4, segment.len() as int) == ".wav"@ {
        segment.take(segment.len() - 4) + ".json"@
    } else {
        segment + ".json"@
    }
}

/// The name of the transcript kept beside the segment file `segment`.
pub fn transcript_name(segment: &str) -> (r: String)
    ensures
        r@ == transcript_name_of(segment@),
{
    proof {
        reveal_strlit(".wav");
    }
    let n = segment.unicode_len();
    if n >= 4 {
        let tail = segment.substring_char(n - 4, n);
        if tail.get_char(0) == '.' && tail.get_char(1) == 'w' && tail.get_char(2) == 'a'
            && tail.get_char(3) == 'v' {
            assert(tail@ =~= ".wav"@);
            let mut r = String::from_str(segment.substring_char(0, n - 4));
            r.append(".json");
            return r;
        } else {
            assert(".wav"@[0] == '.' && ".wav"@[1] == 'w' && ".wav"@[2] == 'a' && ".wav"@[3] == 'v');
            assert(tail@ != ".wav"@);
        }
    }
    let mut r = String::from_str(segment);
    r.append(".json");
    r
}

} // verus!
