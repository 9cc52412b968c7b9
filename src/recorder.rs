//! The order in which a recording is torn down, and how the failures met on
//! the way are reported: every step runs, and the first failure is the one
//! reported.

use vstd::prelude::*;
use crate::error::RecordingError;
use crate::layout::StreamSide;

verus! {

/// One step of stopping a recording.
#[derive(Clone, Copy, Debug, PartialEq, Eq, Structural)]
pub enum StopAction {
    /// Wait until the side's manifest lists every closed segment.
    WaitForSegments(StreamSide),
    /// Send the quit directive to the side's transcoder and close its input.
    SendQuit(StreamSide),
    /// Pause and release the side's capture stream.
    StopCapture(StreamSide),
    /// End the side's transcoder where it still runs.
    KillTranscoder(StreamSide),
}

/// The running sides, input first.
pub open spec fn sides(input: bool, output: bool) -> Seq<StreamSide> {
    (if input { seq![StreamSide::Input] } else { seq![] }) + (if output {
        seq![StreamSide::Output]
    } else {
        seq![]
    })
}

/// The steps of stopping: every running side's segments are waited for
/// before any transcoder is told to quit, then the transcoders are told to
/// quit, then the capture streams stop, then the transcoders still running
/// are ended.
pub open spec fn stop_sequence(input: bool, output: bool) -> Seq<StopAction> {
    let ghost s = sides(input, output);
    s.map_values(|d: StreamSide| StopAction::WaitForSegments(d)) + s.map_values(
        |d: StreamSide| StopAction::SendQuit(d),
    ) + s.map_values(|d: StreamSide| StopAction::StopCapture(d)) + s.map_values(
        |d: StreamSide| StopAction::KillTranscoder(d),
    )
}

fn push_for_sides(out: &mut Vec<StopAction>, input: bool, output: bool, step: u8)
    requires
        step < 4,
    ensures
        final(out)@ == old(out)@ + sides(input, output).map_values(
            |d: StreamSide| action_of(step, d),
        ),
{
    let ghost start = out@;
    if input {
        out.push(make_action(step, StreamSide::Input));
    }
    if output {
        out.push(make_action(step, StreamSide::Output));
    }
    assert(out@ =~= start + sides(input, output).map_values(|d: StreamSide| action_of(step, d)));
}

/// The action of step `step` on side `d`.
pub open spec fn action_of(step: u8, d: StreamSide) -> StopAction {
    if step == 0 {
        StopAction::WaitForSegments(d)
    } else if step == 1 {
        StopAction::SendQuit(d)
    } else if step == 2 {
        StopAction::StopCapture(d)
    } else {
        StopAction::KillTranscoder(d)
    }
}

fn make_action(step: u8, d: StreamSide) -> (r: StopAction)
    ensures
        r == action_of(step, d),
{
    if step == 0 {
        StopAction::WaitForSegments(d)
    } else if step == 1 {
        StopAction::SendQuit(d)
    } else if step == 2 {
        StopAction::StopCapture(d)
    } else {
        StopAction::KillTranscoder(d)
    }
}

/// The steps of stopping a recording whose input and output sides run as
/// `input` and `output` say.
pub fn stop_actions(input: bool, output: bool) -> (r: Vec<StopAction>)
    ensures
        r@ == stop_sequence(input, output),
{
    let mut out: Vec<StopAction> = Vec::new();
    push_for_sides(&mut out, input, output, 0);
    push_for_sides(&mut out, input, output, 1);
    push_for_sides(&mut out, input, output, 2);
    push_for_sides(&mut out, input, output, 3);
    let ghost s = sides(input, output);
    assert(s.map_values(|d: StreamSide| action_of(0, d)) =~= s.map_values(
        |d: StreamSide| StopAction::WaitForSegments(d),
    ));
    assert(s.map_values(|d: StreamSide| action_of(1, d)) =~= s.map_values(
        |d: StreamSide| StopAction::SendQuit(d),
    ));
    assert(s.map_values(|d: StreamSide| action_of(2, d)) =~= s.map_values(
        |d: StreamSide| StopAction::StopCapture(d),
    ));
    assert(s.map_values(|d: StreamSide| action_of(3, d)) =~= s.map_values(
        |d: StreamSide| StopAction::KillTranscoder(d),
    ));
    out
}

/// The first failure among the outcomes of a run of steps.
pub open spec fn first_failure(outcomes: Seq<Result<(), RecordingError>>) -> Option<RecordingError>
    decreases outcomes.len(),
{
    if outcomes.len() == 0 {
        None
    } else {
        match first_failure(outcomes.drop_last()) {
            Some(e) => Some(e),
            None => match outcomes.last() {
                Err(e) => Some(e),
                Ok(_) => None,
            },
        }
    }
}

/// Collects the outcomes of the steps of a teardown: all steps run, the
/// first failure is what the teardown reports.
pub struct Teardown {
    failure: Option<RecordingError>,
    outcomes: Ghost<Seq<Result<(), RecordingError>>>,
}

impl Teardown {
    /// The outcomes noted so far, in order.
    pub closed spec fn outcomes(&self) -> Seq<Result<(), RecordingError>> {
        self.outcomes@
    }

    pub closed spec fn wf(&self) -> bool {
        self.failure == first_failure(self.outcomes@)
    }

    pub fn new() -> (r: Teardown)
        ensures
            r.wf(),
            r.outcomes() == Seq::<Result<(), RecordingError>>::empty(),
    {
        Teardown { failure: None, outcomes: Ghost(Seq::empty()) }
    }

    /// Notes the outcome of one step.
    pub fn note(&mut self, outcome: Result<(), RecordingError>)
        requires
            old(self).wf(),
        ensures
            final(self).wf(),
            final(self).outcomes() == old(self).outcomes().push(outcome),
    {
        proof {
            assert(self.outcomes@.push(outcome).drop_last() =~= self.outcomes@);
        }
        if self.failure.is_none() {
            match outcome {
                Err(e) => {
                    self.failure = Some(e);
                },
                Ok(()) => {},
            }
        }
        self.outcomes = Ghost(self.outcomes@.push(outcome));
    }

    /// What the teardown reports: success where every step succeeded, the
    /// first failure otherwise.
    pub fn finish(self) -> (r: Result<(), RecordingError>)
        requires
            self.wf(),
        ensures
            match first_failure(self.outcomes()) {
                Some(e) => r == Err::<(), RecordingError>(e),
                None => r == Ok::<(), RecordingError>(()),
            },
    {
        match self.failure {
            Some(e) => Err(e),
            None => Ok(()),
        }
    }
}

} // verus!
