use mic_volume_control::audio::AudioController;
use mic_volume_control::audio::DeviceStep;
use mic_volume_control::audio::EndpointReply;
use mic_volume_control::audio::EndpointRequest;
use mic_volume_control::drift::LoopEvent;
use mic_volume_control::error::ControlError;
use mic_volume_control::error::DeviceFault;
use mic_volume_control::level::Level;
use mic_volume_control::supervisor::exit_code;

/// The level of a scalar in millionths, as the host converts it: rounded
/// to the nearest, but away from `[0.0, 1.0]` where the scalar lies outside.
fn micros(scalar: f32) -> i64 {
    let millionths = scalar as f64 * 1_000_000.0;
    if scalar.is_nan() {
        i64::MIN
    } else if scalar > 1.0 {
        millionths.ceil() as i64
    } else if scalar < 0.0 {
        millionths.floor() as i64
    } else {
        millionths.round() as i64
    }
}

#[test]
fn test_invalid_volume_range() {
    assert!(AudioController::set_volume(micros(1.5)).is_err());
    assert!(AudioController::set_volume(micros(-0.1)).is_err());
}

#[test]
fn invalid_range_is_the_error_and_no_request_is_made() {
    assert_eq!(AudioController::set_volume(micros(1.5)), Err(ControlError::InvalidRange));
    assert_eq!(AudioController::set_volume(micros(-0.1)), Err(ControlError::InvalidRange));
    assert_eq!(AudioController::set_volume(1_000_001), Err(ControlError::InvalidRange));
    assert_eq!(AudioController::set_volume(-1), Err(ControlError::InvalidRange));
    assert_eq!(AudioController::set_volume(i64::MAX), Err(ControlError::InvalidRange));
    assert_eq!(AudioController::set_volume(i64::MIN), Err(ControlError::InvalidRange));
    assert_eq!(AudioController::set_volume(micros(f32::NAN)), Err(ControlError::InvalidRange));
    assert_eq!(AudioController::set_volume(micros(f32::INFINITY)), Err(ControlError::InvalidRange));
    assert_eq!(
        AudioController::set_volume(micros(f32::NEG_INFINITY)),
        Err(ControlError::InvalidRange)
    );
    // the scalars next to the range on either side
    assert_eq!(
        AudioController::set_volume(micros(1.0 + f32::EPSILON)),
        Err(ControlError::InvalidRange)
    );
    assert_eq!(
        AudioController::set_volume(micros(-f32::MIN_POSITIVE)),
        Err(ControlError::InvalidRange)
    );
    assert!(AudioController::set_volume(micros(1.0)).is_ok());
    assert!(AudioController::set_volume(micros(0.0)).is_ok());
    assert!(AudioController::set_volume(micros(-0.0)).is_ok());
}

#[test]
fn valid_targets_become_write_requests() {
    for raw in [0i64, 1, 500_000, 950_000, 999_999, 1_000_000] {
        match AudioController::set_volume(raw) {
            Ok(EndpointRequest::WriteLevel(level)) => assert_eq!(level.micros() as i64, raw),
            other => panic!("unexpected answer for {}: {:?}", raw, other),
        }
    }
    match AudioController::set_volume(micros(0.5)) {
        Ok(EndpointRequest::WriteLevel(level)) => assert_eq!(level.micros(), 500_000),
        other => panic!("unexpected answer: {:?}", other),
    }
}

#[test]
fn reading_is_a_read_request() {
    assert_eq!(AudioController::get_current_volume(), EndpointRequest::ReadLevel);
}

#[test]
fn every_request_resolves_the_device_anew() {
    let read = EndpointRequest::ReadLevel.steps();
    assert_eq!(
        read,
        vec![
            DeviceStep::CreateEnumerator,
            DeviceStep::ResolveDefaultCapture,
            DeviceStep::ActivateVolume,
            DeviceStep::ReadScalar,
        ]
    );
    let level = Level::new(250_000).unwrap();
    let write = EndpointRequest::WriteLevel(level).steps();
    assert_eq!(
        write,
        vec![
            DeviceStep::CreateEnumerator,
            DeviceStep::ResolveDefaultCapture,
            DeviceStep::ActivateVolume,
            DeviceStep::WriteScalar,
        ]
    );
}

#[test]
fn each_step_has_its_fault() {
    assert_eq!(DeviceStep::CreateEnumerator.fault(), DeviceFault::Enumerator);
    assert_eq!(DeviceStep::ResolveDefaultCapture.fault(), DeviceFault::NoDefaultDevice);
    assert_eq!(DeviceStep::ActivateVolume.fault(), DeviceFault::Activation);
    assert_eq!(DeviceStep::ReadScalar.fault(), DeviceFault::ReadLevel);
    assert_eq!(DeviceStep::WriteScalar.fault(), DeviceFault::WriteLevel);
}

#[test]
fn readings_are_passed_on_unclamped() {
    assert_eq!(AudioController::current_volume(EndpointReply::Level(800_000)), Ok(800_000));
    assert_eq!(AudioController::current_volume(EndpointReply::Level(1_200_000)), Ok(1_200_000));
    assert_eq!(AudioController::current_volume(EndpointReply::Level(-5)), Ok(-5));
}

#[test]
fn device_failures_are_device_unavailable() {
    assert_eq!(
        AudioController::current_volume(EndpointReply::Failed(DeviceFault::NoDefaultDevice)),
        Err(ControlError::DeviceUnavailable(DeviceFault::NoDefaultDevice))
    );
    assert_eq!(
        AudioController::current_volume(EndpointReply::Failed(DeviceFault::Activation)),
        Err(ControlError::DeviceUnavailable(DeviceFault::Activation))
    );
    assert_eq!(
        AudioController::current_volume(EndpointReply::Written),
        Err(ControlError::DeviceUnavailable(DeviceFault::ReadLevel))
    );
    assert_eq!(AudioController::volume_set(EndpointReply::Written), Ok(()));
    assert_eq!(
        AudioController::volume_set(EndpointReply::Failed(DeviceFault::Enumerator)),
        Err(ControlError::DeviceUnavailable(DeviceFault::Enumerator))
    );
    assert_eq!(
        AudioController::volume_set(EndpointReply::Level(3)),
        Err(ControlError::DeviceUnavailable(DeviceFault::WriteLevel))
    );
}

#[test]
fn device_answers_become_loop_reports() {
    let level = Level::new(950_000).unwrap();
    let read = EndpointRequest::ReadLevel;
    let write = EndpointRequest::WriteLevel(level);
    assert_eq!(AudioController::report(read, EndpointReply::Level(7)), LoopEvent::Level(7));
    assert_eq!(
        AudioController::report(read, EndpointReply::Failed(DeviceFault::NoDefaultDevice)),
        LoopEvent::ReadFailed
    );
    assert_eq!(AudioController::report(read, EndpointReply::Written), LoopEvent::ReadFailed);
    assert_eq!(AudioController::report(write, EndpointReply::Written), LoopEvent::Written);
    assert_eq!(
        AudioController::report(write, EndpointReply::Failed(DeviceFault::WriteLevel)),
        LoopEvent::WriteFailed
    );
    assert_eq!(AudioController::report(write, EndpointReply::Level(7)), LoopEvent::WriteFailed);
}

#[test]
fn errors_have_their_messages_and_exit_codes() {
    assert_eq!(ControlError::InvalidRange.message(), "Volume must be between 0.0 and 1.0");
    assert_eq!(
        ControlError::DeviceUnavailable(DeviceFault::Enumerator).message(),
        "Failed to create device enumerator"
    );
    assert_eq!(
        ControlError::DeviceUnavailable(DeviceFault::NoDefaultDevice).message(),
        "Failed to get default microphone"
    );
    assert_eq!(
        ControlError::DeviceUnavailable(DeviceFault::Activation).message(),
        "Failed to activate audio endpoint volume"
    );
    assert_eq!(
        ControlError::DeviceUnavailable(DeviceFault::ReadLevel).message(),
        "Failed to get volume level"
    );
    assert_eq!(
        ControlError::DeviceUnavailable(DeviceFault::WriteLevel).message(),
        "Failed to set volume level"
    );
    assert_eq!(exit_code::<(), ControlError>(&Ok(())), 0);
    assert_eq!(exit_code::<(), ControlError>(&Err(ControlError::InvalidRange)), 1);
    assert_eq!(
        exit_code::<(), ControlError>(&Err(ControlError::DeviceUnavailable(
            DeviceFault::Activation
        ))),
        1
    );
    assert_eq!(exit_code::<u8, String>(&Ok(3)), 0);
    assert_eq!(exit_code::<u8, String>(&Err(String::from("no"))), 1);
}
