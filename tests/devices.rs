use platy::aggregate::{
    creation_outcome, input_aggregate_description, needs_input_aggregate,
    output_aggregate_description, output_creation_outcome, CreateAggregateDeviceResult,
    DeviceCreationError,
};
use platy::listener::{ActiveListener, ListenerError};

#[test]
fn output_aggregate_description_holds_device_and_tap() {
    let d = output_aggregate_description("BuiltInSpeakerDevice", "Platy Speaker", "uid-1", "tap-1");
    assert_eq!(d.name, "Platy Speaker");
    assert_eq!(d.uid, "uid-1");
    assert_eq!(d.main_sub_device, "BuiltInSpeakerDevice");
    assert!(d.is_private);
    assert_eq!(d.tap_auto_start, Some(true));
    assert_eq!(d.sub_devices, vec!["BuiltInSpeakerDevice".to_string()]);
    assert_eq!(d.taps.len(), 1);
    assert_eq!(d.taps[0].uid, "tap-1");
    assert!(!d.taps[0].drift_compensation);
}

#[test]
fn input_aggregate_description_holds_the_microphone() {
    let d = input_aggregate_description("BuiltInMicrophoneDevice");
    assert_eq!(d.name, "Platy Microphone");
    assert_eq!(d.uid, "platy-microphone-uid");
    assert_eq!(d.main_sub_device, "BuiltInMicrophoneDevice");
    assert!(!d.is_private);
    assert_eq!(d.tap_auto_start, None);
    assert_eq!(d.sub_devices, vec!["BuiltInMicrophoneDevice".to_string()]);
    assert!(d.taps.is_empty());
}

#[test]
fn aggregate_microphone_is_created_once() {
    assert!(needs_input_aggregate(&vec!["MacBook Microphone".to_string()]));
    assert!(!needs_input_aggregate(&vec!["A".to_string(), "Platy Microphone".to_string()]));
    assert!(needs_input_aggregate(&vec![]));
}

#[test]
fn creation_status_decides_the_outcome() {
    assert_eq!(creation_outcome(0, 77), Ok(77));
    assert_eq!(creation_outcome(-50, 77), Err(DeviceCreationError::Status(-50)));
    assert_eq!(
        output_creation_outcome(0, 80, 81),
        Ok(CreateAggregateDeviceResult { tap_id: 81, aggregate_device_id: 80 })
    );
    assert_eq!(output_creation_outcome(1852797029, 80, 81), Err(DeviceCreationError::Status(1852797029)));
}

#[test]
fn registering_twice_is_refused() {
    let mut l = ActiveListener::new();
    assert_eq!(l.registered_device(), None);
    assert_eq!(l.register(73), Ok(()));
    assert_eq!(l.register(74), Err(ListenerError::AlreadyRegistered));
    assert_eq!(l.registered_device(), Some(73));
    assert_eq!(l.unregister(), Some(73));
    assert_eq!(l.unregister(), None);
    assert_eq!(l.register(74), Ok(()));
    assert_eq!(l.registered_device(), Some(74));
}

#[test]
fn switching_device_replaces_the_subscription() {
    let mut l = ActiveListener::new();
    assert_eq!(l.switch_device(5), None);
    assert_eq!(l.registered_device(), Some(5));
    assert_eq!(l.switch_device(6), Some(5));
    assert_eq!(l.registered_device(), Some(6));
}

#[test]
fn liveness_changes_are_published_only_while_registered() {
    let mut l = ActiveListener::new();
    assert_eq!(l.on_change(true), None);
    assert!(!l.is_alive());
    l.register(3).unwrap();
    assert_eq!(l.on_change(true), Some(true));
    assert!(l.is_alive());
    assert_eq!(l.on_change(false), Some(false));
    assert!(!l.is_alive());
    l.unregister();
    assert_eq!(l.on_change(true), None);
    assert!(!l.is_alive());
}

#[test]
fn errors_carry_messages() {
    let e = platy::error::RecordingError::from(DeviceCreationError::Status(-50));
    assert_eq!(e, platy::error::RecordingError::PlatformAudio(-50));
    assert_eq!(e.message(), "audio device call failed with status -50");
    assert_eq!(
        platy::error::RecordingError::PlatformAudio(i32::MIN).message(),
        "audio device call failed with status -2147483648"
    );
    assert_eq!(
        platy::error::RecordingError::PlatformAudio(1852797029).message(),
        "audio device call failed with status 1852797029"
    );
    assert_eq!(
        platy::error::RecordingError::Session(platy::session::SessionError::NoActiveSession).message(),
        "no recording is running"
    );
    assert_eq!(
        platy::error::RecordingError::SegmentRead(platy::segment::SegmentReadError::NotMono).message(),
        "the segment is not mono"
    );
}
