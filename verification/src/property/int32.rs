use super::RefreshValueError;
use crate::device::DeviceIndex;
use crate::errors::{get_last_error, CueSdkError};
use vstd::prelude::*;

verus! {

/// An `int32` property that can be refreshed to "check" the property at any
/// point.
#[derive(Debug, Clone, Copy, PartialEq, Eq)]
pub struct Int32Property {
    pub key: Int32PropertyKey,
    pub device_index: DeviceIndex,
    pub last_value: i32,
}

impl Int32Property {
    /// The property `key` of the device at `device_index`, last seen with
    /// `initial_value`.
    pub fn new(device_index: DeviceIndex, key: Int32PropertyKey, initial_value: i32) -> (property:
        Self)
        ensures
            property.device_index == device_index,
            property.key == key,
            property.last_value == initial_value,
    {
        Int32Property { device_index, key, last_value: initial_value }
    }

    /// The index of the device that the property belongs to.
    pub fn device_index(&self) -> (index: DeviceIndex)
        ensures
            index == self.device_index,
    {
        self.device_index
    }

    /// Takes in the answer to reading the property again.
    ///
    /// `was_successful` is what the call returned, `value` what the service
    /// wrote, and `last_error` the service's last error code, which is only
    /// looked at when the call failed. The last value follows a successful
    /// read and stays after a failed one.
    pub fn refresh_value(&mut self, was_successful: bool, value: i32, last_error: u32) -> (res:
        Result<(), RefreshValueError>)
        ensures
            was_successful ==> res is Ok && *final(self) == (Int32Property {
                last_value: value,
                ..*old(self)
            }),
            !was_successful ==> res == Err::<(), RefreshValueError>(
                RefreshValueError(CueSdkError::spec_from_u32(last_error)),
            ) && *final(self) == *old(self),
    {
        if was_successful {
            self.last_value = value;
            Ok(())
        } else {
            Err(RefreshValueError(get_last_error(last_error)))
        }
    }
}

/// The valid keys that some devices support for `int32` property lookups.
#[derive(Debug, Clone, Copy, PartialEq, Eq)]
pub enum Int32PropertyKey {
    HeadsetEqualizerPreset,
}

impl Int32PropertyKey {
    /// The native code of this key.
    pub open spec fn spec_to_u32(self) -> u32 {
        match self {
            Int32PropertyKey::HeadsetEqualizerPreset => 0x2000,
        }
    }

    /// The name of this key.
    pub fn name(self) -> (name: &'static str)
        ensures
            name@ == self.spec_name(),
    {
        match self {
            Int32PropertyKey::HeadsetEqualizerPreset => "HeadsetEqualizerPreset",
        }
    }

    /// The name of this key.
    pub open spec fn spec_name(self) -> Seq<char> {
        match self {
            Int32PropertyKey::HeadsetEqualizerPreset => "HeadsetEqualizerPreset"@,
        }
    }
}

impl From<Int32PropertyKey> for u32 {
    fn from(key: Int32PropertyKey) -> (code: Self) {
        match key {
            Int32PropertyKey::HeadsetEqualizerPreset => 0x2000,
        }
    }
}

impl vstd::std_specs::convert::FromSpecImpl<Int32PropertyKey> for u32 {
    open spec fn obeys_from_spec() -> bool {
        true
    }

    open spec fn from_spec(key: Int32PropertyKey) -> u32 {
        key.spec_to_u32()
    }
}

} // verus!
