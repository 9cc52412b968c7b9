//! The session control surface: at most one recording at a time, started and
//! stopped by conversation id.

use vstd::prelude::*;
use crate::capture::{plan_capture, plans_side, CapturePlan, RecordingOptions};
use crate::layout::{
    combined_path, concat_list_path, conversation_dir, conversation_dir_of, joined, side_name,
    stream_dir, summary_path, transcription_path, StreamSide,
};
use crate::manifest::views;
use crate::transcoder::{concat_args, concat_args_of, merge_args, merge_args_of};

verus! {

/// Why a session command was refused.
#[derive(Clone, Copy, Debug, PartialEq, Eq, Structural)]
pub enum SessionError {
    /// A recording is already running.
    AlreadyRecording,
    /// No recording is running.
    NoActiveSession,
    /// The running recording belongs to another conversation.
    OtherConversation,
}

/// The recording that is running.
pub struct RecordingSession {
    pub conversation_id: u64,
    /// The conversation's directory.
    pub dir: String,
}

/// How one stream's segments are joined once recording stops.
pub struct StreamFinalize {
    /// The directory of the stream.
    pub dir: String,
    /// Its manifest.
    pub manifest: String,
    /// Where the concatenation directive goes.
    pub directive: String,
    /// Where the combined track goes.
    pub combined: String,
    /// The transcoder's command line that writes the combined track.
    pub concat_args: Vec<String>,
}

/// The steps that turn a stopped recording into its artifacts.
pub struct FinalizePlan {
    pub conversation_id: u64,
    pub dir: String,
    pub input: StreamFinalize,
    pub output: StreamFinalize,
    /// The conversation's merged mono track.
    pub merged: String,
    /// The transcoder's command line that writes the merged track.
    pub merge_args: Vec<String>,
    /// Where the whole-conversation transcript goes.
    pub transcription: String,
    /// Where the summary goes.
    pub summary: String,
}

/// `f` joins the segments of the stream in `dir`.
pub open spec fn finalizes_stream(dir: Seq<char>, f: StreamFinalize) -> bool {
    &&& f.dir@ == dir
    &&& f.manifest@ == joined(dir, "segment_list.txt"@)
    &&& f.directive@ == joined(dir, "concat.txt"@)
    &&& f.combined@ == joined(dir, "combined.wav"@)
    &&& views(f.concat_args@) == concat_args_of(f.directive@, f.combined@)
}

/// `p` finalizes the recording of conversation `id` kept in `dir`.
pub open spec fn finalizes(dir: Seq<char>, id: u64, p: FinalizePlan) -> bool {
    &&& p.conversation_id == id
    &&& p.dir@ == dir
    &&& finalizes_stream(joined(dir, side_name(StreamSide::Input)), p.input)
    &&& finalizes_stream(joined(dir, side_name(StreamSide::Output)), p.output)
    &&& p.merged@ == joined(dir, "combined.wav"@)
    &&& views(p.merge_args@) == merge_args_of(p.input.combined@, p.output.combined@, p.merged@)
    &&& p.transcription@ == joined(dir, "transcription.json"@)
    &&& p.summary@ == joined(dir, "summary.json"@)
}

fn stream_finalize(conversation_dir: &str, side: StreamSide) -> (r: StreamFinalize)
    ensures
        finalizes_stream(joined(conversation_dir@, side_name(side)), r),
{
    let dir = stream_dir(conversation_dir, side);
    let manifest = crate::layout::manifest_path(dir.as_str());
    let directive = concat_list_path(dir.as_str());
    let combined = combined_path(dir.as_str());
    let concat_args = concat_args(directive.as_str(), combined.as_str());
    StreamFinalize { dir, manifest, directive, combined, concat_args }
}

fn finalize_plan(conversation_id: u64, dir: String) -> (r: FinalizePlan)
    ensures
        finalizes(dir@, conversation_id, r),
{
    let input = stream_finalize(dir.as_str(), StreamSide::Input);
    let output = stream_finalize(dir.as_str(), StreamSide::Output);
    let merged = combined_path(dir.as_str());
    let merge_args = merge_args(input.combined.as_str(), output.combined.as_str(), merged.as_str());
    let transcription = transcription_path(dir.as_str());
    let summary = summary_path(dir.as_str());
    FinalizePlan {
        conversation_id,
        dir,
        input,
        output,
        merged,
        merge_args,
        transcription,
        summary,
    }
}

/// What a change of the microphone's liveness calls for.
#[derive(Clone, Copy, Debug, PartialEq, Eq, Structural)]
pub enum LivenessAction {
    /// The device came alive and nothing records: start a recording.
    StartRecording,
    /// The device went quiet while recording: stop.
    StopRecording,
    /// The state already fits.
    Nothing,
}

/// Starts and stops recordings: one at a time, each in its conversation's
/// directory under the data directory.
pub struct AudioController {
    data_dir: String,
    active: Option<RecordingSession>,
}

impl AudioController {
    /// The data directory.
    pub closed spec fn data_dir_view(&self) -> Seq<char> {
        self.data_dir@
    }

    /// The conversation being recorded, if any.
    pub closed spec fn recording(&self) -> Option<u64> {
        match self.active {
            Some(s) => Some(s.conversation_id),
            None => None,
        }
    }

    /// The running session's directory is its conversation's.
    pub closed spec fn wf(&self) -> bool {
        self.active matches Some(s) ==> s.dir@ == conversation_dir_of(
            self.data_dir@,
            s.conversation_id as nat,
        )
    }

    /// A controller with nothing recording, keeping recordings under `data_dir`.
    pub fn new(data_dir: &str) -> (r: AudioController)
        ensures
            r.wf(),
            r.data_dir_view() == data_dir@,
            r.recording() is None,
    {
        AudioController { data_dir: String::from_str(data_dir), active: None }
    }

    /// Whether a recording is running.
    pub fn is_recording(&self) -> (r: bool)
        ensures
            r == self.recording() is Some,
    {
        self.active.is_some()
    }

    /// Starts recording conversation `conversation_id`: hands back the capture
    /// streams to open, and records the session as running. Refused while
    /// another recording runs.
    pub fn start(&mut self, options: &RecordingOptions, conversation_id: u64) -> (r: Result<
        CapturePlan,
        SessionError,
    >)
        requires
            old(self).wf(),
        ensures
            final(self).wf(),
            final(self).data_dir_view() == old(self).data_dir_view(),
            old(self).recording() is Some ==> {
                &&& r == Err::<CapturePlan, SessionError>(SessionError::AlreadyRecording)
                &&& final(self).recording() == old(self).recording()
            },
            old(self).recording() is None ==> {
                let dir = conversation_dir_of(old(self).data_dir_view(), conversation_id as nat);
                &&& r matches Ok(plan) && plans_side(
                    dir,
                    StreamSide::Input,
                    options.audio_input_name@,
                    plan.input,
                ) && plans_side(dir, StreamSide::Output, options.audio_output_name@, plan.output)
                &&& final(self).recording() == Some(conversation_id)
            },
    {
        if self.active.is_some() {
            return Err(SessionError::AlreadyRecording);
        }
        let dir = conversation_dir(self.data_dir.as_str(), conversation_id);
        let plan = plan_capture(options, dir.as_str());
        self.active = Some(RecordingSession { conversation_id, dir });
        Ok(plan)
    }

    /// Gives up a start whose streams could not be opened: nothing is
    /// recording afterwards.
    pub fn abort(&mut self) -> (r: Option<u64>)
        requires
            old(self).wf(),
        ensures
            final(self).wf(),
            final(self).data_dir_view() == old(self).data_dir_view(),
            final(self).recording() is None,
            r == old(self).recording(),
    {
        match self.active.take() {
            Some(s) => Some(s.conversation_id),
            None => None,
        }
    }

    /// Stops recording conversation `conversation_id` and hands back the
    /// steps that finalize it. Refused where nothing records, or another
    /// conversation does.
    pub fn stop(&mut self, conversation_id: u64) -> (r: Result<FinalizePlan, SessionError>)
        requires
            old(self).wf(),
        ensures
            final(self).wf(),
            final(self).data_dir_view() == old(self).data_dir_view(),
            old(self).recording() is None ==> r == Err::<FinalizePlan, SessionError>(
                SessionError::NoActiveSession,
            ) && final(self).recording() is None,
            old(self).recording() matches Some(id) && id != conversation_id ==> r == Err::<
                FinalizePlan,
                SessionError,
            >(SessionError::OtherConversation) && final(self).recording() == old(self).recording(),
            old(self).recording() == Some(conversation_id) ==> {
                &&& r matches Ok(plan) && finalizes(
                    conversation_dir_of(old(self).data_dir_view(), conversation_id as nat),
                    conversation_id,
                    plan,
                )
                &&& final(self).recording() is None
            },
    {
        match &self.active {
            None => Err(SessionError::NoActiveSession),
            Some(s) => {
                if s.conversation_id != conversation_id {
                    return Err(SessionError::OtherConversation);
                }
                let s = self.active.take().unwrap();
                Ok(finalize_plan(s.conversation_id, s.dir))
            },
        }
    }

    /// What the microphone turning `alive` calls for: a recording starts when
    /// it comes alive and none runs, and stops when it goes quiet.
    pub fn liveness_action(&self, alive: bool) -> (r: LivenessAction)
        ensures
            alive && self.recording() is None ==> r == LivenessAction::StartRecording,
            !alive && self.recording() is Some ==> r == LivenessAction::StopRecording,
            alive == self.recording() is Some ==> r == LivenessAction::Nothing,
    {
        if alive && self.active.is_none() {
            LivenessAction::StartRecording
        } else if !alive && self.active.is_some() {
            LivenessAction::StopRecording
        } else {
            LivenessAction::Nothing
        }
    }

    /// The conversation being recorded, if any.
    pub fn active_conversation(&self) -> (r: Option<u64>)
        ensures
            r == self.recording(),
    {
        match &self.active {
            Some(s) => Some(s.conversation_id),
            None => None,
        }
    }

    /// The directory that deleting conversation `conversation_id`'s recording
    /// removes, with everything below it.
    pub fn recording_dir(&self, conversation_id: u64) -> (r: String)
        ensures
            r@ == conversation_dir_of(self.data_dir_view(), conversation_id as nat),
    {
        conversation_dir(self.data_dir.as_str(), conversation_id)
    }
}

} // verus!
