//! The errors a recording session reports to its caller, each with a
//! human-readable message.

use vstd::prelude::*;
use crate::aggregate::DeviceCreationError;
use crate::format::StreamBuildError;
use crate::segment::SegmentReadError;
use crate::session::SessionError;
use crate::text::{decimal, decimal_string};
use vstd::std_specs::convert::FromSpecImpl;

verus! {

/// What went wrong in a recording session.
#[derive(Clone, Copy, Debug, PartialEq, Eq, Structural)]
pub enum RecordingError {
    /// A call into the platform's audio subsystem returned this status.
    PlatformAudio(i32),
    /// A capture stream could not be set up.
    StreamBuild(StreamBuildError),
    /// The transcoder process could not be started.
    TranscoderSpawn,
    /// Writing to the transcoder failed.
    TranscoderIo,
    /// A segment could not be read.
    SegmentRead(SegmentReadError),
    /// The recognition engine failed.
    EngineInference,
    /// The session refused the command.
    Session(SessionError),
}

impl From<DeviceCreationError> for RecordingError {
    fn from(e: DeviceCreationError) -> (r: RecordingError)
        ensures
            e matches DeviceCreationError::Status(s) && r == RecordingError::PlatformAudio(s),
    {
        match e {
            DeviceCreationError::Status(s) => RecordingError::PlatformAudio(s),
        }
    }
}

impl FromSpecImpl<DeviceCreationError> for RecordingError {
    open spec fn obeys_from_spec() -> bool {
        true
    }

    open spec fn from_spec(e: DeviceCreationError) -> RecordingError {
        match e {
            DeviceCreationError::Status(s) => RecordingError::PlatformAudio(s),
        }
    }
}

/// The decimal representation of a signed number.
pub open spec fn signed_decimal(n: int) -> Seq<char> {
    if n < 0 {
        "-"@ + decimal((-n) as nat)
    } else {
        decimal(n as nat)
    }
}

/// The message of each error.
pub open spec fn message_of(e: RecordingError) -> Seq<char> {
    match e {
        RecordingError::PlatformAudio(s) => "audio device call failed with status "@
            + signed_decimal(s as int),
        RecordingError::StreamBuild(StreamBuildError::UnsupportedFormat) => "the device offers no supported sample format"@,
        RecordingError::StreamBuild(StreamBuildError::NoDevice) => "no audio device is available"@,
        RecordingError::TranscoderSpawn => "the transcoder could not be started"@,
        RecordingError::TranscoderIo => "writing to the transcoder failed"@,
        RecordingError::SegmentRead(SegmentReadError::Malformed) => "the segment is not a readable WAVE file"@,
        RecordingError::SegmentRead(SegmentReadError::NotMono) => "the segment is not mono"@,
        RecordingError::SegmentRead(SegmentReadError::NotInt16) => "the segment is not 16-bit integer PCM"@,
        RecordingError::EngineInference => "speech recognition failed"@,
        RecordingError::Session(SessionError::AlreadyRecording) => "a recording is already running"@,
        RecordingError::Session(SessionError::NoActiveSession) => "no recording is running"@,
        RecordingError::Session(SessionError::OtherConversation) => "another conversation is being recorded"@,
    }
}

impl RecordingError {
    /// The error's message for the user.
    pub fn message(&self) -> (r: String)
        ensures
            r@ == message_of(*self),
    {
        match self {
            RecordingError::PlatformAudio(s) => {
                let mut m = String::from_str("audio device call failed with status ");
                if *s < 0 {
                    m.append("-");
                    let magnitude: u64 = (0i64 - *s as i64) as u64;
                    let d = decimal_string(magnitude);
                    m.append(d.as_str());
                } else {
                    let d = decimal_string(*s as u64);
                    m.append(d.as_str());
                }
                m
            },
            RecordingError::StreamBuild(StreamBuildError::UnsupportedFormat) => String::from_str(
                "the device offers no supported sample format",
            ),
            RecordingError::StreamBuild(StreamBuildError::NoDevice) => String::from_str(
                "no audio device is available",
            ),
            RecordingError::TranscoderSpawn => String::from_str("the transcoder could not be started"),
            RecordingError::TranscoderIo => String::from_str("writing to the transcoder failed"),
            RecordingError::SegmentRead(SegmentReadError::Malformed) => String::from_str(
                "the segment is not a readable WAVE file",
            ),
            RecordingError::SegmentRead(SegmentReadError::NotMono) => String::from_str(
                "the segment is not mono",
            ),
            RecordingError::SegmentRead(SegmentReadError::NotInt16) => String::from_str(
                "the segment is not 16-bit integer PCM",
            ),
            RecordingError::EngineInference => String::from_str("speech recognition failed"),
            RecordingError::Session(SessionError::AlreadyRecording) => String::from_str(
                "a recording is already running",
            ),
            RecordingError::Session(SessionError::NoActiveSession) => String::from_str(
                "no recording is running",
            ),
            RecordingError::Session(SessionError::OtherConversation) => String::from_str(
                "another conversation is being recorded",
            ),
        }
    }
}

} // verus!
