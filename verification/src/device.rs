//! The USB device state machine: enumeration state, control-transfer
//! servicing, and the device descriptor the host sees.
//!
//! The device presents itself as an Audio-class device with a
//! MIDI-streaming subclass. This module models the protocol decisions of
//! enumeration: which control requests are accepted in which state, what
//! each accepted request answers, and how the enumeration state advances.
//! Malformed or unsupported requests are rejected by stalling the control
//! endpoint — a protocol-level condition that never surfaces to the
//! application layer.
//!
//! The model answers the standard device descriptor itself; the
//! class-specific, configuration and string descriptors that accompany
//! enumeration are assembled by the USB stack in the hardware shell from
//! the identity this module fixes — the IDs, classes and strings below.

use vstd::prelude::*;

verus! {

/// Vendor ID the device enumerates with.
pub const USB_VID: u16 = 0x1209;

/// Product ID the device enumerates with.
pub const USB_PID: u16 = 0x0001;

/// USB Audio device class.
pub const USB_CLASS_AUDIO: u8 = 0x01;

/// MIDI-streaming subclass of the Audio class.
pub const USB_SUBCLASS_MIDI_STREAMING: u8 = 0x03;

/// Descriptor-type code of the standard device descriptor.
pub const DESCRIPTOR_TYPE_DEVICE: u8 = 0x01;

/// Length in bytes of the standard device descriptor.
pub const DEVICE_DESCRIPTOR_LEN: u16 = 18;

/// Enumeration-protocol state of the device, advanced only by
/// host-originated control requests.
#[derive(Clone, Copy, Debug, PartialEq, Eq, Structural)]
pub enum DeviceState {
    /// Attached and reset, not yet addressed.
    DefaultState,
    /// Given a non-zero address by the host, not yet configured.
    Addressed,
    /// Configured and ready for class traffic.
    Configured,
}

/// A host-originated control request, as the decision logic sees it
/// after the setup packet's fields are unpacked.
#[derive(Clone, Copy, Debug, PartialEq, Eq, Structural)]
pub enum ControlRequest {
    /// GET_DESCRIPTOR: descriptor type and index, and how many bytes the
    /// host asked for.
    GetDescriptor { descriptor_type: u8, descriptor_index: u8, requested_length: u16 },
    /// SET_ADDRESS with the address from the setup packet's value field;
    /// only `0..=127` is a legal device address.
    SetAddress { address: u16 },
    /// SET_CONFIGURATION with the configuration value; this device has
    /// exactly one configuration, numbered 1.
    SetConfiguration { value: u16 },
    /// Any other request code: unsupported by this device.
    Other { request_code: u8 },
}

/// The device's answer to one control request.
#[derive(Clone, Debug, PartialEq, Eq)]
pub enum ControlResponse {
    /// An IN data stage carrying these bytes.
    Data(Vec<u8>),
    /// A zero-length status stage: the request was accepted.
    Ack,
    /// The control endpoint is stalled: the request was rejected.
    Stall,
}

/// The 18 bytes of the standard device descriptor, exactly as they go on
/// the wire: length and type, USB 2.1, Audio class with the
/// MIDI-streaming subclass, an 8-byte control endpoint, vendor and
/// product IDs little-endian, device release 0.1.0, the three string
/// indices, and a single configuration.
pub open spec fn spec_device_descriptor() -> Seq<u8> {
    seq![
        0x12u8, // bLength
        0x01,   // bDescriptorType: device
        0x10, 0x02, // bcdUSB
        0x01,   // bDeviceClass: Audio
        0x03,   // bDeviceSubClass: MIDI streaming
        0x00,   // bDeviceProtocol
        0x08,   // bMaxPacketSize0
        0x09, 0x12, // idVendor
        0x01, 0x00, // idProduct
        0x10, 0x00, // bcdDevice
        0x01,   // iManufacturer
        0x02,   // iProduct
        0x03,   // iSerialNumber
        0x01,   // bNumConfigurations
    ]
}

/// The data stage a GET_DESCRIPTOR(DEVICE) answer carries: the device
/// descriptor, truncated to the length the host asked for.
pub open spec fn spec_descriptor_data(requested_length: u16) -> Seq<u8> {
    if requested_length <= DEVICE_DESCRIPTOR_LEN {
        spec_device_descriptor().take(requested_length as int)
    } else {
        spec_device_descriptor()
    }
}

/// Whether the device accepts `req` in state `state`; a rejected request
/// stalls the control endpoint. The device answers GET_DESCRIPTOR for the
/// device descriptor in every state, takes SET_ADDRESS with a legal
/// address until it is configured, and takes SET_CONFIGURATION for its
/// single configuration (or 0, deconfiguring) once addressed.
pub open spec fn spec_request_accepted(state: DeviceState, req: ControlRequest) -> bool {
    match req {
        ControlRequest::GetDescriptor { descriptor_type, descriptor_index, .. } => descriptor_type
            == DESCRIPTOR_TYPE_DEVICE && descriptor_index == 0,
        ControlRequest::SetAddress { address } => !(state is Configured) && address <= 127,
        ControlRequest::SetConfiguration { value } => !(state is DefaultState) && (value == 0
            || value == 1),
        ControlRequest::Other { .. } => false,
    }
}

/// The enumeration state after `req` is serviced in `state`: a rejected
/// request changes nothing; GET_DESCRIPTOR never moves the state; an
/// accepted SET_ADDRESS leads to `Addressed` (or back to `DefaultState`
/// for address 0); an accepted SET_CONFIGURATION leads to `Configured`
/// (or back to `Addressed` for value 0).
pub open spec fn spec_next_state(state: DeviceState, req: ControlRequest) -> DeviceState {
    if !spec_request_accepted(state, req) {
        state
    } else {
        match req {
            ControlRequest::GetDescriptor { .. } => state,
            ControlRequest::SetAddress { address } => if address == 0 {
                DeviceState::DefaultState
            } else {
                DeviceState::Addressed
            },
            ControlRequest::SetConfiguration { value } => if value == 1 {
                DeviceState::Configured
            } else {
                DeviceState::Addressed
            },
            ControlRequest::Other { .. } => state,
        }
    }
}

/// Builds the device descriptor as it is sent on the wire.
pub fn device_descriptor() -> (r: Vec<u8>)
    ensures
        r@ == spec_device_descriptor(),
{
    let mut r: Vec<u8> = Vec::new();
    r.push(0x12);
    r.push(0x01);
    r.push(0x10);
    r.push(0x02);
    r.push(0x01);
    r.push(0x03);
    r.push(0x00);
    r.push(0x08);
    r.push(0x09);
    r.push(0x12);
    r.push(0x01);
    r.push(0x00);
    r.push(0x10);
    r.push(0x00);
    r.push(0x01);
    r.push(0x02);
    r.push(0x03);
    r.push(0x01);
    proof {
        assert(r@ =~= spec_device_descriptor());
    }
    r
}

/// Services one control request: answers it and advances the enumeration
/// state. Exactly the accepted requests succeed; every rejected one
/// stalls and leaves the state unchanged; an accepted GET_DESCRIPTOR
/// carries the device descriptor truncated to the requested length, and
/// the accepted write requests acknowledge with an empty status stage.
pub fn handle_control(state: DeviceState, req: &ControlRequest) -> (r: (
    DeviceState,
    ControlResponse,
))
    ensures
        r.0 == spec_next_state(state, *req),
        r.1 is Stall <==> !spec_request_accepted(state, *req),
        r.1 is Data <==> (spec_request_accepted(state, *req) && *req is GetDescriptor),
        r.1 matches ControlResponse::Data(bytes) ==> (*req matches ControlRequest::GetDescriptor {
            requested_length,
            ..
        } && bytes@ == spec_descriptor_data(requested_length)),
        r.1 is Ack <==> (spec_request_accepted(state, *req) && !(*req is GetDescriptor)),
{
    match *req {
        ControlRequest::GetDescriptor { descriptor_type, descriptor_index, requested_length } => {
            if descriptor_type == DESCRIPTOR_TYPE_DEVICE && descriptor_index == 0 {
                let mut bytes = device_descriptor();
                if requested_length < DEVICE_DESCRIPTOR_LEN {
                    bytes.truncate(requested_length as usize);
                }
                proof {
                    if requested_length >= DEVICE_DESCRIPTOR_LEN {
                        assert(bytes@ =~= spec_descriptor_data(requested_length));
                    }
                }
                (state, ControlResponse::Data(bytes))
            } else {
                (state, ControlResponse::Stall)
            }
        },
        ControlRequest::SetAddress { address } => {
            match state {
                DeviceState::Configured => (state, ControlResponse::Stall),
                _ => {
                    if address > 127 {
                        (state, ControlResponse::Stall)
                    } else if address == 0 {
                        (DeviceState::DefaultState, ControlResponse::Ack)
                    } else {
                        (DeviceState::Addressed, ControlResponse::Ack)
                    }
                },
            }
        },
        ControlRequest::SetConfiguration { value } => {
            match state {
                DeviceState::DefaultState => (state, ControlResponse::Stall),
                _ => {
                    if value == 1 {
                        (DeviceState::Configured, ControlResponse::Ack)
                    } else if value == 0 {
                        (DeviceState::Addressed, ControlResponse::Ack)
                    } else {
                        (state, ControlResponse::Stall)
                    }
                },
            }
        },
        ControlRequest::Other { .. } => (state, ControlResponse::Stall),
    }
}

/// Manufacturer string the device enumerates with.
pub fn manufacturer() -> (r: &'static str)
    ensures
        r@ == "V3X Labs"@,
{
    "V3X Labs"
}

/// Product string the device enumerates with.
pub fn product() -> (r: &'static str)
    ensures
        r@ == "Project Cipher"@,
{
    "Project Cipher"
}

/// Fixed placeholder serial number; a per-unit serial sourced from device
/// ROM is deliberately deferred to the platform.
pub fn serial_number() -> (r: &'static str)
    ensures
        r@ == "0000-0000-0000-0000"@,
{
    "0000-0000-0000-0000"
}

/// Law: the device descriptor advertises exactly the identity this
/// device is built with — the Audio class, the MIDI-streaming subclass,
/// and the fixed vendor and product IDs, the IDs little-endian.
pub proof fn lemma_descriptor_advertises_identity()
    ensures
        spec_device_descriptor().len() == DEVICE_DESCRIPTOR_LEN,
        spec_device_descriptor()[0] == DEVICE_DESCRIPTOR_LEN,
        spec_device_descriptor()[1] == DESCRIPTOR_TYPE_DEVICE,
        spec_device_descriptor()[4] == USB_CLASS_AUDIO,
        spec_device_descriptor()[5] == USB_SUBCLASS_MIDI_STREAMING,
        spec_device_descriptor()[8] + 0x100 * spec_device_descriptor()[9] == USB_VID,
        spec_device_descriptor()[10] + 0x100 * spec_device_descriptor()[11] == USB_PID,
{
}

/// Law: a rejected control request never moves the enumeration state.
pub proof fn lemma_rejected_request_preserves_state(state: DeviceState, req: ControlRequest)
    requires
        !spec_request_accepted(state, req),
    ensures
        spec_next_state(state, req) == state,
{
}

/// Law: GET_DESCRIPTOR never moves the enumeration state, accepted or
/// not.
pub proof fn lemma_get_descriptor_preserves_state(state: DeviceState, req: ControlRequest)
    requires
        req is GetDescriptor,
    ensures
        spec_next_state(state, req) == state,
{
}

} // verus!
