use super::RefreshValueError;
use crate::device::DeviceIndex;
use crate::errors::{get_last_error, CueSdkError};
use vstd::prelude::*;

verus! {

/// A `boolean` property that can be refreshed to "check" the property at any
/// point.
#[derive(Debug, Clone, Copy, PartialEq, Eq)]
pub struct BooleanProperty {
    pub key: BooleanPropertyKey,
    pub device_index: DeviceIndex,
    pub last_value: bool,
}

impl BooleanProperty {
    /// The property `key` of the device at `device_index`, last seen with
    /// `initial_value`.
    pub fn new(device_index: DeviceIndex, key: BooleanPropertyKey, initial_value: bool) -> (property:
        Self)
        ensures
            property.device_index == device_index,
            property.key == key,
            property.last_value == initial_value,
    {
        BooleanProperty { device_index, key, last_value: initial_value }
    }

    /// The index of the device that the property belongs to.
    pub fn device_index(&self) -> (index: DeviceIndex)
        ensures
            index == self.device_index,
    {
        self.device_index
    }

    /// Takes in the answer to reading the property again.
    ///
    /// `was_successful` is what the call returned, `value` what the service
    /// wrote, and `last_error` the service's last error code, which is only
    /// looked at when the call failed. The last value follows a successful
    /// read and stays after a failed one.
    pub fn refresh_value(&mut self, was_successful: bool, value: bool, last_error: u32) -> (res:
        Result<(), RefreshValueError>)
        ensures
            was_successful ==> res is Ok && *final(self) == (BooleanProperty {
                last_value: value,
                ..*old(self)
            }),
            !was_successful ==> res == Err::<(), RefreshValueError>(
                RefreshValueError(CueSdkError::spec_from_u32(last_error)),
            ) && *final(self) == *old(self),
    {
        if was_successful {
            self.last_value = value;
            Ok(())
        } else {
            Err(RefreshValueError(get_last_error(last_error)))
        }
    }
}

/// The valid keys that some devices support for `boolean` property lookups.
#[derive(Debug, Clone, Copy, PartialEq, Eq)]
pub enum BooleanPropertyKey {
    HeadsetMicEnabled,
    HeadsetSurroundSoundEnabled,
    HeadsetSidetoneEnabled,
}

impl BooleanPropertyKey {
    /// The native code of this key.
    pub open spec fn spec_to_u32(self) -> u32 {
        match self {
            BooleanPropertyKey::HeadsetMicEnabled => 0x1000,
            BooleanPropertyKey::HeadsetSurroundSoundEnabled => 0x1001,
            BooleanPropertyKey::HeadsetSidetoneEnabled => 0x1002,
        }
    }

    /// The name of this key.
    pub fn name(self) -> (name: &'static str)
        ensures
            name@ == self.spec_name(),
    {
        match self {
            BooleanPropertyKey::HeadsetMicEnabled => "HeadsetMicEnabled",
            BooleanPropertyKey::HeadsetSurroundSoundEnabled => "HeadsetSurroundSoundEnabled",
            BooleanPropertyKey::HeadsetSidetoneEnabled => "HeadsetSidetoneEnabled",
        }
    }

    /// The name of this key.
    pub open spec fn spec_name(self) -> Seq<char> {
        match self {
            BooleanPropertyKey::HeadsetMicEnabled => "HeadsetMicEnabled"@,
            BooleanPropertyKey::HeadsetSurroundSoundEnabled => "HeadsetSurroundSoundEnabled"@,
            BooleanPropertyKey::HeadsetSidetoneEnabled => "HeadsetSidetoneEnabled"@,
        }
    }
}

impl From<BooleanPropertyKey> for u32 {
    fn from(key: BooleanPropertyKey) -> (code: Self) {
        match key {
            BooleanPropertyKey::HeadsetMicEnabled => 0x1000,
            BooleanPropertyKey::HeadsetSurroundSoundEnabled => 0x1001,
            BooleanPropertyKey::HeadsetSidetoneEnabled => 0x1002,
        }
    }
}

impl vstd::std_specs::convert::FromSpecImpl<BooleanPropertyKey> for u32 {
    open spec fn obeys_from_spec() -> bool {
        true
    }

    open spec fn from_spec(key: BooleanPropertyKey) -> u32 {
        key.spec_to_u32()
    }
}

} // verus!
