use altjack::hid_device::{touch_request, touch_response, TouchError};

#[test]
fn touch_request_frames_port_and_duration() {
    let report = touch_request(2, 500).unwrap();
    assert_eq!(report, [0x00, 0x02, 0x60, 0x03, 0x00, 0x01, 0xf4, 0x01]);
}

#[test]
fn touch_request_zero_duration() {
    let report = touch_request(1, 0).unwrap();
    assert_eq!(report, [0x00, 0x02, 0x60, 0x03, 0x00, 0x00, 0x00, 0x00]);
}

#[test]
fn touch_request_longest_duration() {
    let report = touch_request(4, 65535).unwrap();
    assert_eq!(report, [0x00, 0x02, 0x60, 0x03, 0x00, 0x03, 0xff, 0xff]);
}

#[test]
fn touch_request_duration_overflow() {
    assert_eq!(touch_request(1, 65536), Err(TouchError::DurationTooLarge));
    assert_eq!(touch_request(1, u128::MAX), Err(TouchError::DurationTooLarge));
}

#[test]
fn touch_request_invalid_port() {
    assert_eq!(touch_request(0, 500), Err(TouchError::InvalidPort));
    assert_eq!(touch_request(5, 500), Err(TouchError::InvalidPort));
    assert_eq!(touch_request(255, 500), Err(TouchError::InvalidPort));
    // The port is checked before the duration.
    assert_eq!(touch_request(0, 65536), Err(TouchError::InvalidPort));
}

#[test]
fn touch_response_status_mapping() {
    assert_eq!(touch_response(0x00), Ok(()));
    assert_eq!(touch_response(0x01), Err(TouchError::RemoteTimeout));
    assert_eq!(touch_response(0x02), Err(TouchError::InvalidAddress));
    assert_eq!(touch_response(0x03), Err(TouchError::InvalidData));
    assert_eq!(touch_response(0x04), Err(TouchError::Unknown));
    assert_eq!(touch_response(0x7f), Err(TouchError::Unknown));
    assert_eq!(touch_response(0xff), Err(TouchError::Unknown));
}

#[test]
fn touch_error_messages() {
    assert_eq!(TouchError::InvalidPort.message(), "invalid port");
    assert_eq!(TouchError::DurationTooLarge.message(), "duration too large");
    assert_eq!(TouchError::RemoteTimeout.message(), "read: timeout");
    assert_eq!(TouchError::InvalidAddress.message(), "read: invalid addr");
    assert_eq!(TouchError::InvalidData.message(), "read: invalid data");
    assert_eq!(TouchError::Unknown.message(), "read: unknown error");
}
