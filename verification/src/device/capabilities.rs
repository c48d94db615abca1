use crate::native::{CDC_LIGHTING, CDC_PROPERTY_LOOKUP};
use vstd::prelude::*;

verus! {

/// The known capabilities of the `CueDevice`.
#[derive(Debug, Clone, Copy, PartialEq, Eq)]
pub struct DeviceCapabilities {
    pub lighting: bool,
    pub property_lookup: bool,
}

impl DeviceCapabilities {
    /// Reads the capabilities out of the native bit mask: each capability is
    /// there exactly when its bit is set; other bits are ignored.
    pub fn from_ffi(bitmask: i32) -> (caps: Self)
        ensures
            caps.lighting == (bitmask & CDC_LIGHTING != 0),
            caps.property_lookup == (bitmask & CDC_PROPERTY_LOOKUP != 0),
    {
        let lighting_val = bitmask & CDC_LIGHTING;
        let property_lookup_val = bitmask & CDC_PROPERTY_LOOKUP;
        DeviceCapabilities {
            lighting: lighting_val != 0,
            property_lookup: property_lookup_val != 0,
        }
    }
}

} // verus!
