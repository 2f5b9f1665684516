use midi_bridge::device::{
    device_descriptor, handle_control, manufacturer, product, serial_number, ControlRequest,
    ControlResponse, DeviceState, DESCRIPTOR_TYPE_DEVICE, USB_CLASS_AUDIO, USB_PID,
    USB_SUBCLASS_MIDI_STREAMING, USB_VID,
};

#[test]
fn get_device_descriptor_advertises_identity() {
    let request = ControlRequest::GetDescriptor {
        descriptor_type: DESCRIPTOR_TYPE_DEVICE,
        descriptor_index: 0,
        requested_length: 18,
    };
    let (state, response) = handle_control(DeviceState::DefaultState, &request);
    assert_eq!(state, DeviceState::DefaultState);
    match response {
        ControlResponse::Data(bytes) => {
            assert_eq!(bytes.len(), 18);
            assert_eq!(bytes[4], USB_CLASS_AUDIO);
            assert_eq!(bytes[5], USB_SUBCLASS_MIDI_STREAMING);
            assert_eq!(u16::from_le_bytes([bytes[8], bytes[9]]), USB_VID);
            assert_eq!(u16::from_le_bytes([bytes[10], bytes[11]]), USB_PID);
        }
        other => panic!("expected a data stage, got {:?}", other),
    }
}

#[test]
fn descriptor_bytes_are_wire_exact() {
    let bytes = device_descriptor();
    assert_eq!(
        bytes,
        vec![
            0x12, 0x01, 0x10, 0x02, 0x01, 0x03, 0x00, 0x08, 0x09, 0x12, 0x01, 0x00, 0x10, 0x00,
            0x01, 0x02, 0x03, 0x01,
        ]
    );
}

#[test]
fn short_descriptor_read_is_truncated() {
    let request = ControlRequest::GetDescriptor {
        descriptor_type: DESCRIPTOR_TYPE_DEVICE,
        descriptor_index: 0,
        requested_length: 8,
    };
    let (_, response) = handle_control(DeviceState::DefaultState, &request);
    match response {
        ControlResponse::Data(bytes) => {
            assert_eq!(bytes, vec![0x12, 0x01, 0x10, 0x02, 0x01, 0x03, 0x00, 0x08]);
        }
        other => panic!("expected a data stage, got {:?}", other),
    }
}

#[test]
fn long_descriptor_read_returns_whole_descriptor() {
    let request = ControlRequest::GetDescriptor {
        descriptor_type: DESCRIPTOR_TYPE_DEVICE,
        descriptor_index: 0,
        requested_length: 0xFF,
    };
    let (_, response) = handle_control(DeviceState::Addressed, &request);
    match response {
        ControlResponse::Data(bytes) => assert_eq!(bytes.len(), 18),
        other => panic!("expected a data stage, got {:?}", other),
    }
}

#[test]
fn enumeration_walks_default_addressed_configured() {
    let (s1, r1) = handle_control(DeviceState::DefaultState, &ControlRequest::SetAddress {
        address: 11,
    });
    assert_eq!(s1, DeviceState::Addressed);
    assert_eq!(r1, ControlResponse::Ack);
    let (s2, r2) = handle_control(s1, &ControlRequest::SetConfiguration { value: 1 });
    assert_eq!(s2, DeviceState::Configured);
    assert_eq!(r2, ControlResponse::Ack);
}

#[test]
fn unsupported_descriptor_type_stalls() {
    let request = ControlRequest::GetDescriptor {
        descriptor_type: 0x22,
        descriptor_index: 0,
        requested_length: 18,
    };
    let (state, response) = handle_control(DeviceState::Configured, &request);
    assert_eq!(state, DeviceState::Configured);
    assert_eq!(response, ControlResponse::Stall);
}

#[test]
fn malformed_requests_stall_without_state_change() {
    // Address out of range.
    let (s, r) = handle_control(DeviceState::DefaultState, &ControlRequest::SetAddress {
        address: 200,
    });
    assert_eq!((s, r), (DeviceState::DefaultState, ControlResponse::Stall));
    // Configuring before addressing.
    let (s, r) = handle_control(DeviceState::DefaultState, &ControlRequest::SetConfiguration {
        value: 1,
    });
    assert_eq!((s, r), (DeviceState::DefaultState, ControlResponse::Stall));
    // A configuration this device does not have.
    let (s, r) = handle_control(DeviceState::Addressed, &ControlRequest::SetConfiguration {
        value: 2,
    });
    assert_eq!((s, r), (DeviceState::Addressed, ControlResponse::Stall));
    // An unsupported request code.
    let (s, r) = handle_control(DeviceState::Configured, &ControlRequest::Other {
        request_code: 0x0A,
    });
    assert_eq!((s, r), (DeviceState::Configured, ControlResponse::Stall));
}

#[test]
fn set_address_zero_returns_to_default() {
    let (s1, _) = handle_control(DeviceState::DefaultState, &ControlRequest::SetAddress {
        address: 4,
    });
    let (s2, r2) = handle_control(s1, &ControlRequest::SetAddress { address: 0 });
    assert_eq!(s2, DeviceState::DefaultState);
    assert_eq!(r2, ControlResponse::Ack);
}

#[test]
fn deconfiguring_returns_to_addressed() {
    let (s1, _) = handle_control(DeviceState::Addressed, &ControlRequest::SetConfiguration {
        value: 1,
    });
    let (s2, r2) = handle_control(s1, &ControlRequest::SetConfiguration { value: 0 });
    assert_eq!(s2, DeviceState::Addressed);
    assert_eq!(r2, ControlResponse::Ack);
}

#[test]
fn device_strings_are_fixed() {
    assert_eq!(manufacturer(), "V3X Labs");
    assert_eq!(product(), "Project Cipher");
    assert_eq!(serial_number(), "0000-0000-0000-0000");
}
