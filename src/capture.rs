//! Which capture streams a recording opens, on which devices, and how the
//! device lists offered to the user are ordered.

use vstd::prelude::*;
use crate::format::{best_format, negotiate_format, SampleFormat, StreamBuildError};
use crate::layout::{joined, side_name, StreamSide, manifest_path, segment_pattern, stream_dir};
use crate::manifest::views;
use crate::transcoder::{segmenting_args, segmenting_args_of};

verus! {

/// What the user chose to record.
pub struct RecordingOptions {
    pub user_id: String,
    /// The input device's name; empty for the default device, `None` for no
    /// input stream.
    pub audio_input_name: String,
    /// The output device's name; empty for the default device, `None` for no
    /// output stream.
    pub audio_output_name: String,
}

/// The direction of an audio device.
#[derive(Clone, Copy, Debug, PartialEq, Eq, Structural)]
pub enum DeviceType {
    AudioInput,
    AudioOutput,
}

/// How a side of the recording names its device.
#[derive(Debug)]
pub enum DeviceSelector {
    /// The system's default device.
    Default,
    /// The device of this name, or the default where none has it.
    Named(String),
    /// No stream on this side.
    Disabled,
}

/// The name that turns a side of the recording off.
pub open spec fn none_sentinel() -> Seq<char> {
    "None"@
}

/// The selector a device name stands for.
pub open spec fn selects(name: Seq<char>, s: DeviceSelector) -> bool {
    if name.len() == 0 {
        s is Default
    } else if name == none_sentinel() {
        s is Disabled
    } else {
        s matches DeviceSelector::Named(n) && n@ == name
    }
}

/// Reads a device name: empty selects the default device, `None` turns the
/// side off, anything else names a device.
pub fn selector_of(name: &str) -> (r: DeviceSelector)
    ensures
        selects(name@, r),
{
    proof {
        reveal_strlit("None");
    }
    let n = name.unicode_len();
    if n == 0 {
        DeviceSelector::Default
    } else if n == 4 && name.get_char(0) == 'N' && name.get_char(1) == 'o' && name.get_char(2)
        == 'n' && name.get_char(3) == 'e' {
        assert(name@ =~= none_sentinel());
        DeviceSelector::Disabled
    } else {
        assert(none_sentinel().len() == 4);
        assert(none_sentinel()[0] == 'N' && none_sentinel()[1] == 'o');
        assert(none_sentinel()[2] == 'n' && none_sentinel()[3] == 'e');
        assert(name@ != none_sentinel());
        DeviceSelector::Named(String::from_str(name))
    }
}


/// One capture stream to open and the files it goes to.
pub struct StreamPlan {
    pub side: StreamSide,
    /// The device: `Default` or `Named`.
    pub device: DeviceSelector,
    /// The directory of its segments.
    pub dir: String,
    /// The manifest the transcoder lists the segments in.
    pub manifest: String,
    /// The pattern the transcoder names the segments by.
    pub pattern: String,
}

/// The capture streams of one recording.
pub struct CapturePlan {
    pub input: Option<StreamPlan>,
    pub output: Option<StreamPlan>,
}

/// `p` is what a recording into `conversation_dir` opens for `side`, whose
/// device is named `name`.
pub open spec fn plans_side(
    conversation_dir: Seq<char>,
    side: StreamSide,
    name: Seq<char>,
    p: Option<StreamPlan>,
) -> bool {
    if name == none_sentinel() {
        p is None
    } else {
        p matches Some(sp) && {
            &&& sp.side == side
            &&& selects(name, sp.device)
            &&& sp.dir@ == joined(conversation_dir, side_name(side))
            &&& sp.manifest@ == joined(sp.dir@, "segment_list.txt"@)
            &&& sp.pattern@ == joined(sp.dir@, "audio_recording_%03d.wav"@)
        }
    }
}

fn plan_side(conversation_dir: &str, side: StreamSide, name: &str) -> (r: Option<StreamPlan>)
    ensures
        plans_side(conversation_dir@, side, name@, r),
{
    proof {
        reveal_strlit("None");
    }
    let device = selector_of(name);
    match device {
        DeviceSelector::Disabled => {
            assert(name@ == none_sentinel());
            None
        },
        _ => {
            let dir = stream_dir(conversation_dir, side);
            let manifest = manifest_path(dir.as_str());
            let pattern = segment_pattern(dir.as_str());
            Some(StreamPlan { side, device, dir, manifest, pattern })
        },
    }
}

/// The streams a recording into `conversation_dir` opens: one per side whose
/// device name is not `None`, each writing into its own directory.
pub fn plan_capture(options: &RecordingOptions, conversation_dir: &str) -> (r: CapturePlan)
    ensures
        plans_side(conversation_dir@, StreamSide::Input, options.audio_input_name@, r.input),
        plans_side(conversation_dir@, StreamSide::Output, options.audio_output_name@, r.output),
{
    let input = plan_side(conversation_dir, StreamSide::Input, options.audio_input_name.as_str());
    let output = plan_side(
        conversation_dir,
        StreamSide::Output,
        options.audio_output_name.as_str(),
    );
    CapturePlan { input, output }
}

/// A stream's format and the transcoder's command line for it.
pub struct StreamCommand {
    pub format: SampleFormat,
    pub args: Vec<String>,
}

/// The transcoder's command line for a planned stream on a device that offers
/// `offered` formats at `sample_rate` and `channels`; fails where the device
/// offers no format a stream can be opened with.
pub fn stream_command(
    plan: &StreamPlan,
    offered: &Vec<SampleFormat>,
    sample_rate: u32,
    channels: u16,
) -> (r: Result<StreamCommand, StreamBuildError>)
    ensures
        match best_format(offered@) {
            Some(f) => r matches Ok(c) && c.format == f && views(c.args@) == segmenting_args_of(
                f,
                sample_rate as nat,
                channels as nat,
                plan.manifest@,
                plan.pattern@,
            ),
            None => r matches Err(e) && e == StreamBuildError::UnsupportedFormat,
        },
{
    proof {
        crate::format::lemma_best_format(offered@);
    }
    match negotiate_format(offered) {
        Ok(format) => {
            let args = segmenting_args(
                format,
                sample_rate,
                channels,
                plan.manifest.as_str(),
                plan.pattern.as_str(),
            );
            Ok(StreamCommand { format, args })
        },
        Err(e) => Err(e),
    }
}

/// What the device directory knows of one device: a snapshot of the
/// system's state, queried again whenever it is needed.
pub struct DeviceInfo {
    /// The system's id of the device.
    pub id: u32,
    /// The device's persistent UID.
    pub uid: String,
    pub name: String,
    /// The number of input configurations it offers.
    pub input_configs: u32,
    /// The number of output configurations it offers.
    pub output_configs: u32,
}

/// Whether `d` can serve as a device of direction `t`.
pub open spec fn supports(d: DeviceInfo, t: DeviceType) -> bool {
    match t {
        DeviceType::AudioInput => d.input_configs > 0,
        DeviceType::AudioOutput => d.output_configs > 0,
    }
}

/// Whether `d` is a device of direction `t` named `name`.
pub open spec fn matches_device(d: DeviceInfo, t: DeviceType, name: Seq<char>) -> bool {
    supports(d, t) && d.name@ == name
}

/// Finds the device a selector names: the first device of direction
/// `device_type` called `name`. `None` where there is none, and the system's
/// default device serves instead.
pub fn find_device(devices: &Vec<DeviceInfo>, name: &str, device_type: DeviceType) -> (r: Option<
    usize,
>)
    ensures
        match r {
            Some(i) => {
                &&& i < devices.len()
                &&& matches_device(devices@[i as int], device_type, name@)
                &&& forall|j: int| 0 <= j < i ==> !matches_device(devices@[j], device_type, name@)
            },
            None => forall|j: int|
                0 <= j < devices.len() ==> !matches_device(devices@[j], device_type, name@),
        },
{
    let mut i: usize = 0;
    while i < devices.len()
        invariant
            i <= devices.len(),
            forall|j: int| 0 <= j < i ==> !matches_device(devices@[j], device_type, name@),
        decreases devices.len() - i,
    {
        let d = &devices[i];
        let ok = match device_type {
            DeviceType::AudioInput => d.input_configs > 0,
            DeviceType::AudioOutput => d.output_configs > 0,
        };
        if ok && same_text(d.name.as_str(), name) {
            return Some(i);
        }
        i = i + 1;
    }
    None
}

/// Translates a device UID into the system's id of that device, where the
/// directory lists one.
pub fn device_id_for_uid(devices: &Vec<DeviceInfo>, uid: &str) -> (r: Option<u32>)
    ensures
        match r {
            Some(id) => exists|i: int|
                {
                    &&& 0 <= i < devices.len()
                    &&& #[trigger] devices@[i].uid@ == uid@
                    &&& devices@[i].id == id
                    &&& forall|j: int| 0 <= j < i ==> devices@[j].uid@ != uid@
                },
            None => forall|i: int| 0 <= i < devices.len() ==> devices@[i].uid@ != uid@,
        },
{
    let mut i: usize = 0;
    while i < devices.len()
        invariant
            i <= devices.len(),
            forall|j: int| 0 <= j < i ==> devices@[j].uid@ != uid@,
        decreases devices.len() - i,
    {
        if same_text(devices[i].uid.as_str(), uid) {
            assert(devices@[i as int].uid@ == uid@);
            return Some(devices[i].id);
        }
        i = i + 1;
    }
    None
}

/// `names` without the entries equal to `x`, in order.
pub open spec fn without(names: Seq<Seq<char>>, x: Seq<char>) -> Seq<Seq<char>>
    decreases names.len(),
{
    if names.len() == 0 {
        seq![]
    } else if names.last() == x {
        without(names.drop_last(), x)
    } else {
        without(names.drop_last(), x).push(names.last())
    }
}

fn retain_other(names: &Vec<String>, x: &str, out: &mut Vec<String>)
    ensures
        views(final(out)@) == views(old(out)@) + without(views(names@), x@),
{
    let mut i: usize = 0;
    let ghost start = views(out@);
    while i < names.len()
        invariant
            i <= names.len(),
            views(out@) == start + without(views(names@).take(i as int), x@),
        decreases names.len() - i,
    {
        assert(views(names@).take(i + 1).drop_last() =~= views(names@).take(i as int));
        assert(views(names@).take(i + 1).last() == names@[i as int]@);
        if !same_text(names[i].as_str(), x) {
            let ghost prev = views(out@);
            out.push(names[i].clone());
            assert(views(out@) =~= prev.push(names@[i as int]@));
            assert(without(views(names@).take(i + 1), x@) == without(
                views(names@).take(i as int),
                x@,
            ).push(names@[i as int]@));
            assert(views(out@) =~= start + without(views(names@).take(i + 1), x@));
        }
        i = i + 1;
    }
    assert(views(names@).take(names.len() as int) =~= views(names@));
}

fn same_text(a: &str, b: &str) -> (r: bool)
    ensures
        r == (a@ == b@),
{
    let n = a.unicode_len();
    if n != b.unicode_len() {
        return false;
    }
    let mut i: usize = 0;
    while i < n
        invariant
            i <= n == a@.len() == b@.len(),
            a@.take(i as int) == b@.take(i as int),
        decreases n - i,
    {
        if a.get_char(i) != b.get_char(i) {
            assert(a@[i as int] != b@[i as int]);
            return false;
        }
        assert(a@.take(i + 1) =~= a@.take(i as int).push(a@[i as int]));
        assert(b@.take(i + 1) =~= b@.take(i as int).push(b@[i as int]));
        i = i + 1;
    }
    assert(a@ =~= a@.take(n as int));
    assert(b@ =~= b@.take(n as int));
    true
}

/// The input devices as offered to the user: the default device first, then
/// the others in the order the system lists them.
pub fn input_device_menu(names: &Vec<String>, default_name: &str) -> (r: Vec<String>)
    ensures
        views(r@) == seq![default_name@] + without(views(names@), default_name@),
{
    let mut out: Vec<String> = Vec::new();
    out.push(String::from_str(default_name));
    assert(views(out@) =~= seq![default_name@]);
    retain_other(names, default_name, &mut out);
    out
}

/// The output devices as offered to the user: all but the recorder's own
/// aggregate device, in the order the system lists them.
pub fn output_device_menu(names: &Vec<String>) -> (r: Vec<String>)
    ensures
        views(r@) == without(views(names@), "Platy"@),
{
    let mut out: Vec<String> = Vec::new();
    assert(views(out@) =~= seq![]);
    retain_other(names, "Platy", &mut out);
    assert(views(out@) =~= without(views(names@), "Platy"@));
    out
}

} // verus!
