//! Plain mirrors of the records that cross the C interface.
//!
//! A native record is only valid while the call that produced it is running,
//! so whoever holds the pointers copies what they refer to into these types
//! before any rule is applied. Pointers become `Option`s: `None` stands for
//! the null pointer, `Some` holds what the pointer refers to. An array that
//! travels as a count and a pointer keeps both: the count exactly as the
//! service reported it, and the elements that were readable behind the
//! pointer. A C string is the bytes before its terminating NUL. A union is a
//! record with one field per arm, each holding what a reader of that arm
//! finds. Floating-point numbers are carried as their IEEE-754 bit patterns.
use vstd::prelude::*;

verus! {

/// Length of the fixed-size character buffers of the interface.
pub const CORSAIR_STRING_SIZE: usize = 128;

/// A fixed-size, NUL-padded character buffer.
pub type RawCharBuffer = [u8; 128];

// Result codes of the session-based interface.
pub const CE_SUCCESS: u32 = 0;
pub const CE_NOT_CONNECTED: u32 = 1;
pub const CE_NO_CONTROL: u32 = 2;
pub const CE_INCOMPATIBLE_PROTOCOL: u32 = 3;
pub const CE_INVALID_ARGUMENTS: u32 = 4;
pub const CE_INVALID_OPERATION: u32 = 5;
pub const CE_DEVICE_NOT_FOUND: u32 = 6;
pub const CE_NOT_ALLOWED: u32 = 7;

// Session states.
pub const CSS_INVALID: u32 = 0;
pub const CSS_CLOSED: u32 = 1;
pub const CSS_CONNECTING: u32 = 2;
pub const CSS_TIMEOUT: u32 = 3;
pub const CSS_CONNECTION_REFUSED: u32 = 4;
pub const CSS_CONNECTION_LOST: u32 = 5;
pub const CSS_CONNECTED: u32 = 6;

// Event discriminants.
pub const CEI_INVALID: u32 = 0;
pub const CEI_DEVICE_CONNECTION_STATUS_CHANGED_EVENT: u32 = 1;
pub const CEI_KEY_EVENT: u32 = 2;

// Property value discriminants.
pub const CT_BOOLEAN: u32 = 0;
pub const CT_INT32: u32 = 1;
pub const CT_FLOAT64: u32 = 2;
pub const CT_STRING: u32 = 3;
pub const CT_BOOLEAN_ARRAY: u32 = 16;
pub const CT_INT32_ARRAY: u32 = 17;
pub const CT_FLOAT64_ARRAY: u32 = 18;
pub const CT_STRING_ARRAY: u32 = 19;

// Capability bits of index-addressed devices.
pub const CDC_LIGHTING: i32 = 1;
pub const CDC_PROPERTY_LOOKUP: i32 = 2;

/// The LED identifier that the lookup by key name gives when it fails.
pub const CLI_INVALID: u32 = 0;

/// Capacity of the buffer that receives the device list of a session.
pub const CORSAIR_DEVICE_COUNT_MAX: usize = 64;

/// Capacity of the buffer that receives the LED positions of a device.
pub const CORSAIR_DEVICE_LEDCOUNT_MAX: usize = 512;

/// One sub-device attached to a channel.
#[derive(Debug, Clone, Copy, PartialEq, Eq)]
pub struct RawChannelDeviceInfo {
    pub type_: u32,
    pub device_led_count: i32,
}

/// One channel of a device: its LED total and the array of attached
/// sub-devices.
#[derive(Debug, Clone, PartialEq, Eq)]
pub struct RawChannelInfo {
    pub total_leds_count: i32,
    pub devices_count: i32,
    pub devices: Option<Vec<RawChannelDeviceInfo>>,
}

/// The array of channels of a device.
#[derive(Debug, Clone, PartialEq, Eq)]
pub struct RawChannelsInfo {
    pub channels_count: i32,
    pub channels: Option<Vec<RawChannelInfo>>,
}

/// The description of an index-addressed device.
#[derive(Debug, Clone, PartialEq, Eq)]
pub struct RawDeviceInfo {
    pub type_: u32,
    pub model: Option<Vec<u8>>,
    pub physical_layout: u32,
    pub logical_layout: u32,
    pub caps_mask: i32,
    pub leds_count: i32,
    pub channels: RawChannelsInfo,
    pub device_id: RawCharBuffer,
}

/// Position of one LED of an index-addressed device.
#[derive(Debug, Clone, Copy, PartialEq, Eq)]
pub struct RawLedPosition {
    pub led_id: u32,
    pub top: u64,
    pub left: u64,
    pub height: u64,
    pub width: u64,
}

/// The array of LED positions of an index-addressed device.
#[derive(Debug, Clone, PartialEq, Eq)]
pub struct RawLedPositions {
    pub number_of_led: i32,
    pub led_position: Option<Vec<RawLedPosition>>,
}

/// Colour of one LED as the index-based calls exchange it: channel values
/// are full integers and may be out of range.
#[derive(Debug, Clone, Copy, PartialEq, Eq)]
pub struct RawLedColor {
    pub led_id: u32,
    pub r: i32,
    pub g: i32,
    pub b: i32,
}

/// What the protocol handshake reports.
#[derive(Debug, Clone, PartialEq, Eq)]
pub struct RawProtocolDetails {
    pub sdk_version: Option<Vec<u8>>,
    pub server_version: Option<Vec<u8>>,
    pub sdk_protocol_version: i32,
    pub server_protocol_version: i32,
    pub breaking_changes: bool,
}

/// Payload of a device connection event.
#[derive(Debug, Clone, Copy, PartialEq, Eq)]
pub struct RawDeviceConnectionStatusChangedEvent {
    pub device_id: RawCharBuffer,
    pub is_connected: bool,
}

/// Payload of a key event.
#[derive(Debug, Clone, Copy, PartialEq, Eq)]
pub struct RawKeyEvent {
    pub device_id: RawCharBuffer,
    pub key_id: u32,
    pub is_pressed: bool,
}

/// The payload union of an event. Both arms are pointers; each field holds
/// what is found behind the pointer when it is read as that arm.
#[derive(Debug, Clone, Copy, PartialEq, Eq)]
pub struct RawEventUnion {
    pub device_connection_status_changed_event: Option<RawDeviceConnectionStatusChangedEvent>,
    pub key_event: Option<RawKeyEvent>,
}

/// An event as the service hands it to the event callback.
#[derive(Debug, Clone, Copy, PartialEq, Eq)]
pub struct RawEvent {
    pub id: u32,
    pub event_union: RawEventUnion,
}

/// A version triple of the session-based interface.
#[derive(Debug, Clone, Copy, PartialEq, Eq)]
pub struct RawVersion {
    pub major: i32,
    pub minor: i32,
    pub patch: i32,
}

/// The versions that describe a session.
#[derive(Debug, Clone, Copy, PartialEq, Eq)]
pub struct RawSessionDetails {
    pub client_version: RawVersion,
    pub server_version: RawVersion,
    pub server_host_version: RawVersion,
}

/// What the session-state callback receives.
#[derive(Debug, Clone, Copy, PartialEq, Eq)]
pub struct RawSessionStateChanged {
    pub state: u32,
    pub details: RawSessionDetails,
}

/// The description of an identifier-addressed device.
#[derive(Debug, Clone, Copy, PartialEq, Eq)]
pub struct RawSessionDeviceInfo {
    pub type_: u32,
    pub id: RawCharBuffer,
    pub serial: RawCharBuffer,
    pub model: RawCharBuffer,
    pub led_count: i32,
    pub channel_count: i32,
}

/// Position of one LED of an identifier-addressed device.
#[derive(Debug, Clone, Copy, PartialEq, Eq)]
pub struct RawSessionLedPosition {
    pub id: u32,
    pub cx: u64,
    pub cy: u64,
}

/// An array arm of the property value union.
#[derive(Debug, Clone, PartialEq, Eq)]
pub struct RawArray<T> {
    pub items: Option<Vec<T>>,
    pub count: u32,
}

/// The value union of a property, one field per arm.
#[derive(Debug, Clone, PartialEq, Eq)]
pub struct RawDataValue {
    pub boolean: bool,
    pub int32: i32,
    pub float64: u64,
    pub string: Option<Vec<u8>>,
    pub boolean_array: RawArray<bool>,
    pub int32_array: RawArray<i32>,
    pub float64_array: RawArray<u64>,
    pub string_array: RawArray<Option<Vec<u8>>>,
}

/// A property as the service fills it in: a discriminant and the union it
/// governs.
#[derive(Debug, Clone, PartialEq, Eq)]
pub struct RawProperty {
    pub type_: u32,
    pub value: RawDataValue,
}

impl RawEventUnion {
    /// The union as it looks when its pointer is null.
    pub fn null() -> (u: Self)
        ensures
            u.device_connection_status_changed_event is None,
            u.key_event is None,
    {
        RawEventUnion { device_connection_status_changed_event: None, key_event: None }
    }

    /// The union around a device connection payload.
    pub fn device_connection_status_changed_event(
        payload: RawDeviceConnectionStatusChangedEvent,
    ) -> (u: Self)
        ensures
            u.device_connection_status_changed_event == Some(payload),
            u.key_event is None,
    {
        RawEventUnion { device_connection_status_changed_event: Some(payload), key_event: None }
    }

    /// The union around a key payload.
    pub fn key_event(payload: RawKeyEvent) -> (u: Self)
        ensures
            u.device_connection_status_changed_event is None,
            u.key_event == Some(payload),
    {
        RawEventUnion { device_connection_status_changed_event: None, key_event: Some(payload) }
    }
}

} // verus!
