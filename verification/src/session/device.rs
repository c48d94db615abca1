//! Identifier-addressed devices.
use crate::internal::c_utils::{c_string_bytes, decode_utf8_lossy, spec_c_string_bytes, utf8_lossy};
use crate::native::{RawCharBuffer, RawSessionDeviceInfo};
use vstd::prelude::*;

verus! {

/// An opaque device identifier returned by the SDK.
///
/// This is a fixed-size byte array that can be cheaply round-tripped through
/// the native interface without allocation.
#[derive(Clone, Copy, PartialEq, Eq, Hash, Debug)]
pub struct DeviceId(pub RawCharBuffer);

impl DeviceId {
    /// The identifier as the native interface takes it.
    pub fn as_bytes(&self) -> (bytes: &RawCharBuffer)
        ensures
            *bytes == self.0,
    {
        &self.0
    }

    /// Create from the native type (copy).
    pub fn from_ffi(raw: RawCharBuffer) -> (id: Self)
        ensures
            id.0 == raw,
    {
        DeviceId(raw)
    }

    /// The identifier as text: the lossy decoding of the C string that the
    /// buffer holds.
    pub fn to_text(&self) -> (text: String)
        ensures
            text@ == utf8_lossy(spec_c_string_bytes(self.0@)),
    {
        c_char_array_to_string(self.0.as_slice())
    }
}

/// Bitmask of device types used for filtering devices.
#[derive(Debug, Clone, Copy, PartialEq, Eq, Hash)]
pub struct DeviceType {
    bits: u32,
}

pub const DEVICE_TYPE_UNKNOWN: u32 = 0x0000;
pub const DEVICE_TYPE_KEYBOARD: u32 = 0x0001;
pub const DEVICE_TYPE_MOUSE: u32 = 0x0002;
pub const DEVICE_TYPE_MOUSEMAT: u32 = 0x0004;
pub const DEVICE_TYPE_HEADSET: u32 = 0x0008;
pub const DEVICE_TYPE_HEADSET_STAND: u32 = 0x0010;
pub const DEVICE_TYPE_FAN_LED_CONTROLLER: u32 = 0x0020;
pub const DEVICE_TYPE_LED_CONTROLLER: u32 = 0x0040;
pub const DEVICE_TYPE_MEMORY_MODULE: u32 = 0x0080;
pub const DEVICE_TYPE_COOLER: u32 = 0x0100;
pub const DEVICE_TYPE_MOTHERBOARD: u32 = 0x0200;
pub const DEVICE_TYPE_GRAPHICS_CARD: u32 = 0x0400;
pub const DEVICE_TYPE_TOUCHBAR: u32 = 0x0800;
pub const DEVICE_TYPE_GAME_CONTROLLER: u32 = 0x1000;
pub const DEVICE_TYPE_ALL: u32 = 0xFFFF_FFFF;

impl View for DeviceType {
    type V = u32;

    closed spec fn view(&self) -> u32 {
        self.bits
    }
}

impl DeviceType {
    /// The mask with exactly the given bits. Every bit is the bit of some
    /// filter (`DEVICE_TYPE_ALL` has them all), so none is dropped.
    pub fn from_bits_truncate(bits: u32) -> (mask: Self)
        ensures
            mask@ == bits,
    {
        DeviceType { bits }
    }

    /// The bits of the mask.
    pub fn bits(&self) -> (bits: u32)
        ensures
            bits == self@,
    {
        self.bits
    }

    /// Whether every bit of `other` is set in this mask.
    pub fn contains(&self, other: DeviceType) -> (all: bool)
        ensures
            all == (self@ & other@ == other@),
    {
        self.bits & other.bits == other.bits
    }

    /// The mask with the bits of both.
    pub fn union(&self, other: DeviceType) -> (mask: Self)
        ensures
            mask@ == self@ | other@,
    {
        DeviceType { bits: self.bits | other.bits }
    }

    /// The mask that matches every device.
    pub fn all() -> (mask: Self)
        ensures
            mask@ == DEVICE_TYPE_ALL,
    {
        DeviceType { bits: DEVICE_TYPE_ALL }
    }
}

/// Information about a connected Corsair device.
#[derive(Debug, Clone, PartialEq, Eq)]
pub struct DeviceInfo {
    /// The device type bitmask.
    pub device_type: DeviceType,
    /// Unique device identifier.
    pub id: DeviceId,
    /// Serial number string.
    pub serial: String,
    /// Model name string.
    pub model: String,
    /// Number of LEDs on this device.
    pub led_count: i32,
    /// Number of channels (for DIY devices).
    pub channel_count: i32,
}

/// The mathematical content of a [`DeviceInfo`].
pub ghost struct DeviceInfoView {
    pub device_type: u32,
    pub id: RawCharBuffer,
    pub serial: Seq<char>,
    pub model: Seq<char>,
    pub led_count: i32,
    pub channel_count: i32,
}

impl DeepView for DeviceInfo {
    type V = DeviceInfoView;

    open spec fn deep_view(&self) -> DeviceInfoView {
        DeviceInfoView {
            device_type: self.device_type@,
            id: self.id.0,
            serial: self.serial@,
            model: self.model@,
            led_count: self.led_count,
            channel_count: self.channel_count,
        }
    }
}

/// Why a native device record is unusable.
#[derive(Debug, Clone, Copy, PartialEq, Eq)]
pub enum DeviceInfoFromFfiError {
    /// The number of LEDs is negative; the value is that number.
    InvalidLedCount(i32),
    /// The number of channels is negative; the value is that number.
    InvalidChannelCount(i32),
}

impl DeviceInfo {
    /// What a native device record converts to. The two counts are
    /// validated, the LED count first. Serial number and model name are for
    /// display and are decoded leniently.
    pub open spec fn spec_from_ffi(raw: RawSessionDeviceInfo) -> Result<
        DeviceInfoView,
        DeviceInfoFromFfiError,
    > {
        if raw.led_count < 0 {
            Err(DeviceInfoFromFfiError::InvalidLedCount(raw.led_count))
        } else if raw.channel_count < 0 {
            Err(DeviceInfoFromFfiError::InvalidChannelCount(raw.channel_count))
        } else {
            Ok(
                DeviceInfoView {
                    device_type: raw.type_,
                    id: raw.id,
                    serial: utf8_lossy(spec_c_string_bytes(raw.serial@)),
                    model: utf8_lossy(spec_c_string_bytes(raw.model@)),
                    led_count: raw.led_count,
                    channel_count: raw.channel_count,
                },
            )
        }
    }

    /// Convert from the native record.
    pub fn from_ffi(raw: &RawSessionDeviceInfo) -> (res: Result<Self, DeviceInfoFromFfiError>)
        ensures
            match res {
                Ok(info) => Self::spec_from_ffi(*raw) == Ok::<
                    DeviceInfoView,
                    DeviceInfoFromFfiError,
                >(info.deep_view()),
                Err(e) => Self::spec_from_ffi(*raw) == Err::<
                    DeviceInfoView,
                    DeviceInfoFromFfiError,
                >(e),
            },
            res is Err <==> raw.led_count < 0 || raw.channel_count < 0,
    {
        if raw.led_count < 0 {
            return Err(DeviceInfoFromFfiError::InvalidLedCount(raw.led_count));
        }
        if raw.channel_count < 0 {
            return Err(DeviceInfoFromFfiError::InvalidChannelCount(raw.channel_count));
        }
        Ok(
            DeviceInfo {
                device_type: DeviceType::from_bits_truncate(raw.type_),
                id: DeviceId::from_ffi(raw.id),
                serial: c_char_array_to_string(raw.serial.as_slice()),
                model: c_char_array_to_string(raw.model.as_slice()),
                led_count: raw.led_count,
                channel_count: raw.channel_count,
            },
        )
    }
}

/// Convert a fixed-size character buffer to an owned `String`, stopping at
/// the first NUL byte and decoding leniently.
pub fn c_char_array_to_string(arr: &[u8]) -> (text: String)
    ensures
        text@ == utf8_lossy(spec_c_string_bytes(arr@)),
{
    let bytes = c_string_bytes(arr);
    decode_utf8_lossy(bytes.as_slice())
}

} // verus!
