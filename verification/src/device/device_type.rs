use vstd::prelude::*;

verus! {

/// The various device types supported by the iCUE SDK.
#[derive(Debug, Copy, Clone, PartialEq, Eq)]
pub enum DeviceType {
    Mouse,
    Keyboard,
    Headset,
    MouseMat,
    HeadsetStand,
    CommanderPro,
    LightingNodePro,
    MemoryModule,
    Cooler,
    Motherboard,
    GraphicsCard,
}

impl DeviceType {
    /// The native code of this device type.
    pub open spec fn spec_to_u32(self) -> u32 {
        match self {
            DeviceType::Mouse => 1,
            DeviceType::Keyboard => 2,
            DeviceType::Headset => 3,
            DeviceType::MouseMat => 4,
            DeviceType::HeadsetStand => 5,
            DeviceType::CommanderPro => 6,
            DeviceType::LightingNodePro => 7,
            DeviceType::MemoryModule => 8,
            DeviceType::Cooler => 9,
            DeviceType::Motherboard => 10,
            DeviceType::GraphicsCard => 11,
        }
    }

    /// The device type with the given native code, if there is one.
    pub open spec fn spec_from_u32(code: u32) -> Option<Self> {
        if code == 1 {
            Some(DeviceType::Mouse)
        } else if code == 2 {
            Some(DeviceType::Keyboard)
        } else if code == 3 {
            Some(DeviceType::Headset)
        } else if code == 4 {
            Some(DeviceType::MouseMat)
        } else if code == 5 {
            Some(DeviceType::HeadsetStand)
        } else if code == 6 {
            Some(DeviceType::CommanderPro)
        } else if code == 7 {
            Some(DeviceType::LightingNodePro)
        } else if code == 8 {
            Some(DeviceType::MemoryModule)
        } else if code == 9 {
            Some(DeviceType::Cooler)
        } else if code == 10 {
            Some(DeviceType::Motherboard)
        } else if code == 11 {
            Some(DeviceType::GraphicsCard)
        } else {
            None
        }
    }

    /// The native code of this device type.
    pub fn to_u32(self) -> (code: u32)
        ensures
            code == self.spec_to_u32(),
            Self::spec_from_u32(code) == Some(self),
    {
        match self {
            DeviceType::Mouse => 1,
            DeviceType::Keyboard => 2,
            DeviceType::Headset => 3,
            DeviceType::MouseMat => 4,
            DeviceType::HeadsetStand => 5,
            DeviceType::CommanderPro => 6,
            DeviceType::LightingNodePro => 7,
            DeviceType::MemoryModule => 8,
            DeviceType::Cooler => 9,
            DeviceType::Motherboard => 10,
            DeviceType::GraphicsCard => 11,
        }
    }

    /// The device type with the given native code; `None` for a code that names
    /// no device type.
    pub fn from_u32(code: u32) -> (res: Option<Self>)
        ensures
            res == Self::spec_from_u32(code),
            res matches Some(v) ==> v.spec_to_u32() == code,
    {
        match code {
            1 => Some(DeviceType::Mouse),
            2 => Some(DeviceType::Keyboard),
            3 => Some(DeviceType::Headset),
            4 => Some(DeviceType::MouseMat),
            5 => Some(DeviceType::HeadsetStand),
            6 => Some(DeviceType::CommanderPro),
            7 => Some(DeviceType::LightingNodePro),
            8 => Some(DeviceType::MemoryModule),
            9 => Some(DeviceType::Cooler),
            10 => Some(DeviceType::Motherboard),
            11 => Some(DeviceType::GraphicsCard),
            _ => None,
        }
    }

    /// The device type that the native code names; `None` for the code of an
    /// unknown device and for any code that names no type.
    pub fn from_ffi(device_type: u32) -> (res: Option<Self>)
        ensures
            res == Self::spec_from_u32(device_type),
    {
        DeviceType::from_u32(device_type)
    }
}

} // verus!
