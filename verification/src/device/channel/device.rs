use crate::native::RawChannelDeviceInfo;
use vstd::prelude::*;

verus! {

/// The types of devices that can be attached to a `Channel`.
#[derive(Debug, Copy, Clone, PartialEq, Eq)]
pub enum ChannelDeviceType {
    HdFan,
    SpFan,
    LlFan,
    MlFan,
    Strip,
    Dap,
    Pump,
    QlFan,
    WaterBlock,
    SpProFan,
}

impl ChannelDeviceType {
    /// The native code of this type.
    pub open spec fn spec_to_u32(self) -> u32 {
        match self {
            ChannelDeviceType::HdFan => 1,
            ChannelDeviceType::SpFan => 2,
            ChannelDeviceType::LlFan => 3,
            ChannelDeviceType::MlFan => 4,
            ChannelDeviceType::Strip => 5,
            ChannelDeviceType::Dap => 6,
            ChannelDeviceType::Pump => 7,
            ChannelDeviceType::QlFan => 8,
            ChannelDeviceType::WaterBlock => 9,
            ChannelDeviceType::SpProFan => 10,
        }
    }

    /// The type with the given native code, if there is one.
    pub open spec fn spec_from_u32(code: u32) -> Option<Self> {
        if code == 1 {
            Some(ChannelDeviceType::HdFan)
        } else if code == 2 {
            Some(ChannelDeviceType::SpFan)
        } else if code == 3 {
            Some(ChannelDeviceType::LlFan)
        } else if code == 4 {
            Some(ChannelDeviceType::MlFan)
        } else if code == 5 {
            Some(ChannelDeviceType::Strip)
        } else if code == 6 {
            Some(ChannelDeviceType::Dap)
        } else if code == 7 {
            Some(ChannelDeviceType::Pump)
        } else if code == 8 {
            Some(ChannelDeviceType::QlFan)
        } else if code == 9 {
            Some(ChannelDeviceType::WaterBlock)
        } else if code == 10 {
            Some(ChannelDeviceType::SpProFan)
        } else {
            None
        }
    }

    /// The native code of this type.
    pub fn to_u32(self) -> (code: u32)
        ensures
            code == self.spec_to_u32(),
            Self::spec_from_u32(code) == Some(self),
    {
        match self {
            ChannelDeviceType::HdFan => 1,
            ChannelDeviceType::SpFan => 2,
            ChannelDeviceType::LlFan => 3,
            ChannelDeviceType::MlFan => 4,
            ChannelDeviceType::Strip => 5,
            ChannelDeviceType::Dap => 6,
            ChannelDeviceType::Pump => 7,
            ChannelDeviceType::QlFan => 8,
            ChannelDeviceType::WaterBlock => 9,
            ChannelDeviceType::SpProFan => 10,
        }
    }

    /// The type with the given native code; `None` for a code that names no
    /// type.
    pub fn from_u32(code: u32) -> (device_type: Option<Self>)
        ensures
            device_type == Self::spec_from_u32(code),
            device_type matches Some(t) ==> t.spec_to_u32() == code,
            device_type is Some <==> 1 <= code <= 10,
    {
        match code {
            1 => Some(ChannelDeviceType::HdFan),
            2 => Some(ChannelDeviceType::SpFan),
            3 => Some(ChannelDeviceType::LlFan),
            4 => Some(ChannelDeviceType::MlFan),
            5 => Some(ChannelDeviceType::Strip),
            6 => Some(ChannelDeviceType::Dap),
            7 => Some(ChannelDeviceType::Pump),
            8 => Some(ChannelDeviceType::QlFan),
            9 => Some(ChannelDeviceType::WaterBlock),
            10 => Some(ChannelDeviceType::SpProFan),
            _ => None,
        }
    }
}

/// Not to be confused with a `CueDevice`, a `ChannelDevice` is attached to a
/// `Channel`, which is a "DIY" style LED channel of a proper `CueDevice`.
#[derive(Debug, Clone, Copy, PartialEq, Eq)]
pub struct ChannelDevice {
    pub device_type: Option<ChannelDeviceType>,
    pub device_led_count: u32,
}

/// A sub-device reported a negative LED count; the value is that count.
#[derive(Debug, Clone, Copy, PartialEq, Eq)]
pub struct ChannelDeviceFromFfiError {
    pub device_led_count: i32,
}

impl ChannelDevice {
    /// What a native sub-device record converts to.
    pub open spec fn spec_from_ffi(device_info: RawChannelDeviceInfo) -> Result<
        ChannelDevice,
        ChannelDeviceFromFfiError,
    > {
        if device_info.device_led_count < 0 {
            Err(ChannelDeviceFromFfiError { device_led_count: device_info.device_led_count })
        } else {
            Ok(
                ChannelDevice {
                    device_type: ChannelDeviceType::spec_from_u32(device_info.type_),
                    device_led_count: device_info.device_led_count as u32,
                },
            )
        }
    }

    /// Converts a native sub-device record. A negative LED count is the only
    /// failure; an unknown type code is kept as "no known type".
    pub fn from_ffi(device_info: &RawChannelDeviceInfo) -> (res: Result<
        Self,
        ChannelDeviceFromFfiError,
    >)
        ensures
            res == Self::spec_from_ffi(*device_info),
            res is Err <==> device_info.device_led_count < 0,
    {
        let led_count = device_info.device_led_count;
        if led_count < 0 {
            Err(ChannelDeviceFromFfiError { device_led_count: led_count })
        } else {
            let device_led_count: u32 = led_count as u32;
            let device_type = ChannelDeviceType::from_u32(device_info.type_);
            Ok(ChannelDevice { device_led_count, device_type })
        }
    }
}

} // verus!
