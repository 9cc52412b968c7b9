//! Aggregate devices: the description handed to the system to create a
//! virtual capture device, and what the system's answer means.

use vstd::prelude::*;
use crate::manifest::{contains_string, views};

verus! {

/// A software tap among an aggregate device's parts.
pub struct SubTap {
    pub uid: String,
    pub drift_compensation: bool,
}

/// The description of an aggregate device.
pub struct AggregateDescription {
    pub name: String,
    pub uid: String,
    /// The sub-device whose clock the aggregate follows.
    pub main_sub_device: String,
    /// Whether the device is hidden from other processes.
    pub is_private: bool,
    /// Whether its taps start with it; `None` where the description says nothing.
    pub tap_auto_start: Option<bool>,
    pub sub_devices: Vec<String>,
    pub taps: Vec<SubTap>,
}

/// `d` describes the private aggregate device `name`/`uid` made of the real
/// output device `output_uid` and the tap `tap_uid`, without drift
/// compensation.
pub open spec fn describes_output(
    d: AggregateDescription,
    output_uid: Seq<char>,
    name: Seq<char>,
    uid: Seq<char>,
    tap_uid: Seq<char>,
) -> bool {
    &&& d.name@ == name
    &&& d.uid@ == uid
    &&& d.main_sub_device@ == output_uid
    &&& d.is_private
    &&& d.tap_auto_start == Some(true)
    &&& views(d.sub_devices@) == seq![output_uid]
    &&& d.taps@.len() == 1
    &&& d.taps@[0].uid@ == tap_uid
    &&& !d.taps@[0].drift_compensation
}

/// The description of the aggregate device through which what the output
/// device `output_uid` plays can be captured.
pub fn output_aggregate_description(output_uid: &str, name: &str, uid: &str, tap_uid: &str) -> (r:
    AggregateDescription)
    ensures
        describes_output(r, output_uid@, name@, uid@, tap_uid@),
{
    let mut sub_devices: Vec<String> = Vec::new();
    sub_devices.push(String::from_str(output_uid));
    assert(views(sub_devices@) =~= seq![output_uid@]);
    let mut taps: Vec<SubTap> = Vec::new();
    taps.push(SubTap { uid: String::from_str(tap_uid), drift_compensation: false });
    AggregateDescription {
        name: String::from_str(name),
        uid: String::from_str(uid),
        main_sub_device: String::from_str(output_uid),
        is_private: true,
        tap_auto_start: Some(true),
        sub_devices,
        taps,
    }
}

/// The name of the aggregate microphone.
pub open spec fn input_aggregate_name() -> Seq<char> {
    "Platy Microphone"@
}

/// `d` describes the public aggregate microphone made of the real input
/// device `input_uid` alone.
pub open spec fn describes_input(d: AggregateDescription, input_uid: Seq<char>) -> bool {
    &&& d.name@ == input_aggregate_name()
    &&& d.uid@ == "platy-microphone-uid"@
    &&& d.main_sub_device@ == input_uid
    &&& !d.is_private
    &&& d.tap_auto_start is None
    &&& views(d.sub_devices@) == seq![input_uid]
    &&& d.taps@.len() == 0
}

/// The description of the aggregate microphone built on the input device
/// `input_uid`.
pub fn input_aggregate_description(input_uid: &str) -> (r: AggregateDescription)
    ensures
        describes_input(r, input_uid@),
{
    let mut sub_devices: Vec<String> = Vec::new();
    sub_devices.push(String::from_str(input_uid));
    assert(views(sub_devices@) =~= seq![input_uid@]);
    AggregateDescription {
        name: String::from_str("Platy Microphone"),
        uid: String::from_str("platy-microphone-uid"),
        main_sub_device: String::from_str(input_uid),
        is_private: false,
        tap_auto_start: None,
        sub_devices,
        taps: Vec::new(),
    }
}

/// Whether the aggregate microphone still has to be created: creating it
/// twice under one UID is not safe.
pub fn needs_input_aggregate(device_names: &Vec<String>) -> (r: bool)
    ensures
        r == !views(device_names@).contains(input_aggregate_name()),
{
    let name = String::from_str("Platy Microphone");
    !contains_string(device_names, &name)
}

/// The system refused to create a device.
#[derive(Clone, Copy, Debug, PartialEq, Eq, Structural)]
pub enum DeviceCreationError {
    /// The status the system returned.
    Status(i32),
}

/// The devices the system created for the output aggregate.
#[derive(Clone, Copy, Debug, PartialEq, Eq, Structural)]
pub struct CreateAggregateDeviceResult {
    pub tap_id: u32,
    pub aggregate_device_id: u32,
}

/// What the system's answer to creating an aggregate device means: created
/// with id `device_id` where `status` is zero, refused otherwise.
pub fn creation_outcome(status: i32, device_id: u32) -> (r: Result<u32, DeviceCreationError>)
    ensures
        status == 0 ==> r == Ok::<u32, DeviceCreationError>(device_id),
        status != 0 ==> r == Err::<u32, DeviceCreationError>(DeviceCreationError::Status(status)),
{
    if status == 0 {
        Ok(device_id)
    } else {
        Err(DeviceCreationError::Status(status))
    }
}

/// What the system's answer to creating the output aggregate over the tap
/// `tap_id` means.
pub fn output_creation_outcome(status: i32, device_id: u32, tap_id: u32) -> (r: Result<
    CreateAggregateDeviceResult,
    DeviceCreationError,
>)
    ensures
        status == 0 ==> r == Ok::<CreateAggregateDeviceResult, DeviceCreationError>(
            CreateAggregateDeviceResult { tap_id, aggregate_device_id: device_id },
        ),
        status != 0 ==> r == Err::<CreateAggregateDeviceResult, DeviceCreationError>(
            DeviceCreationError::Status(status),
        ),
{
    match creation_outcome(status, device_id) {
        Ok(id) => Ok(CreateAggregateDeviceResult { tap_id, aggregate_device_id: id }),
        Err(e) => Err(e),
    }
}

} // verus!
