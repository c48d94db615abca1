use super::channel::channels::{spec_channels_from_ffi, ChannelsFromFfiErrorView};
use super::channel::ChannelView;
use super::{
    channels_from_ffi, Channel, ChannelsFromFfiError, DeviceCapabilities, DeviceId, DeviceLayout,
    DeviceType,
};
use crate::internal::try_c_char_ptr_to_str;
use crate::native::{RawDeviceInfo, CDC_LIGHTING, CDC_PROPERTY_LOOKUP};
use vstd::prelude::*;
use vstd::utf8::{decode_utf8, valid_utf8};

verus! {

/// The various errors that can occur when reading device info from the iCUE
/// SDK.
#[derive(Debug, Clone, PartialEq, Eq)]
pub enum CueDeviceInfoFromFfiError {
    /// The service returned no record at all.
    NullPointer,
    /// The named field is not valid UTF-8; `error` is the decoder's error.
    StringConversionError { field: String, error: core::str::Utf8Error },
    /// The named field is a null pointer.
    NullPointerField(String),
    /// The number of LEDs is negative.
    InvalidLedsCount(i32),
    /// The channels could not be read.
    ChannelsError(ChannelsFromFfiError),
}

/// The mathematical content of a [`CueDeviceInfoFromFfiError`]. The decoder's
/// error value is not part of it.
pub ghost enum CueDeviceInfoFromFfiErrorView {
    NullPointer,
    StringConversionError { field: Seq<char> },
    NullPointerField(Seq<char>),
    InvalidLedsCount(i32),
    ChannelsError(ChannelsFromFfiErrorView),
}

impl DeepView for CueDeviceInfoFromFfiError {
    type V = CueDeviceInfoFromFfiErrorView;

    open spec fn deep_view(&self) -> CueDeviceInfoFromFfiErrorView {
        match self {
            CueDeviceInfoFromFfiError::NullPointer => CueDeviceInfoFromFfiErrorView::NullPointer,
            CueDeviceInfoFromFfiError::StringConversionError { field, error } => {
                CueDeviceInfoFromFfiErrorView::StringConversionError { field: field@ }
            },
            CueDeviceInfoFromFfiError::NullPointerField(field) => {
                CueDeviceInfoFromFfiErrorView::NullPointerField(field@)
            },
            CueDeviceInfoFromFfiError::InvalidLedsCount(count) => {
                CueDeviceInfoFromFfiErrorView::InvalidLedsCount(*count)
            },
            CueDeviceInfoFromFfiError::ChannelsError(error) => {
                CueDeviceInfoFromFfiErrorView::ChannelsError(error.deep_view())
            },
        }
    }
}

/// The static device info for the attached `CueDevice`, including id, model,
/// capabilities, leds_count, and more.
#[derive(Debug, Clone, PartialEq, Eq)]
pub struct CueDeviceInfo {
    pub id: DeviceId,
    pub device_type: Option<DeviceType>,
    pub model: String,
    pub layout: Option<DeviceLayout>,
    pub capabilities: DeviceCapabilities,
    pub leds_count: u32,
    pub channels: Vec<Channel>,
}

/// The mathematical content of a [`CueDeviceInfo`].
pub ghost struct CueDeviceInfoView {
    pub id: Seq<char>,
    pub device_type: Option<DeviceType>,
    pub model: Seq<char>,
    pub layout: Option<DeviceLayout>,
    pub capabilities: DeviceCapabilities,
    pub leds_count: u32,
    pub channels: Seq<ChannelView>,
}

impl DeepView for CueDeviceInfo {
    type V = CueDeviceInfoView;

    open spec fn deep_view(&self) -> CueDeviceInfoView {
        CueDeviceInfoView {
            id: self.id@,
            device_type: self.device_type,
            model: self.model@,
            layout: self.layout,
            capabilities: self.capabilities,
            leds_count: self.leds_count,
            channels: self.channels.deep_view(),
        }
    }
}

impl CueDeviceInfo {
    /// What a native device record converts to. The checks come in a fixed
    /// order and the first that fails decides the error: the record itself,
    /// the identifier, the model name, the LED count, the channels.
    pub open spec fn spec_from_ffi(device_info: Option<&RawDeviceInfo>) -> Result<
        CueDeviceInfoView,
        CueDeviceInfoFromFfiErrorView,
    > {
        match device_info {
            None => Err(CueDeviceInfoFromFfiErrorView::NullPointer),
            Some(info) => match DeviceId::spec_from_ffi(info.device_id) {
                None => Err(
                    CueDeviceInfoFromFfiErrorView::StringConversionError { field: "deviceId"@ },
                ),
                Some(id) => match info.model {
                    None => Err(CueDeviceInfoFromFfiErrorView::NullPointerField("model"@)),
                    Some(model) => if !valid_utf8(model@) {
                        Err(
                            CueDeviceInfoFromFfiErrorView::StringConversionError {
                                field: "model"@,
                            },
                        )
                    } else if info.leds_count < 0 {
                        Err(CueDeviceInfoFromFfiErrorView::InvalidLedsCount(info.leds_count))
                    } else {
                        match spec_channels_from_ffi(info.channels) {
                            Err(error) => Err(CueDeviceInfoFromFfiErrorView::ChannelsError(error)),
                            Ok(channels) => Ok(
                                CueDeviceInfoView {
                                    id,
                                    device_type: DeviceType::spec_from_u32(info.type_),
                                    model: decode_utf8(model@),
                                    layout: DeviceLayout::spec_from_ffi_values(
                                        info.physical_layout,
                                        info.logical_layout,
                                    ),
                                    capabilities: DeviceCapabilities {
                                        lighting: info.caps_mask & CDC_LIGHTING != 0,
                                        property_lookup: info.caps_mask & CDC_PROPERTY_LOOKUP != 0,
                                    },
                                    leds_count: info.leds_count as u32,
                                    channels,
                                },
                            ),
                        }
                    },
                },
            },
        }
    }

    /// Converts the record that the service returns for a device index;
    /// `None` stands for a null pointer.
    pub fn from_ffi(device_info: Option<&RawDeviceInfo>) -> (res: Result<
        Self,
        CueDeviceInfoFromFfiError,
    >)
        ensures
            match res {
                Ok(info) => Self::spec_from_ffi(device_info) == Ok::<
                    CueDeviceInfoView,
                    CueDeviceInfoFromFfiErrorView,
                >(info.deep_view()),
                Err(error) => Self::spec_from_ffi(device_info) == Err::<
                    CueDeviceInfoView,
                    CueDeviceInfoFromFfiErrorView,
                >(error.deep_view()),
            },
    {
        let info = match device_info {
            None => {
                return Err(CueDeviceInfoFromFfiError::NullPointer);
            },
            Some(info) => info,
        };
        let id = match DeviceId::from_ffi(&info.device_id) {
            Ok(id) => id,
            Err(e) => {
                return Err(
                    CueDeviceInfoFromFfiError::StringConversionError {
                        field: "deviceId".to_owned(),
                        error: e.0,
                    },
                );
            },
        };
        let device_type = DeviceType::from_ffi(info.type_);
        let model_bytes: Option<&[u8]> = match &info.model {
            Some(bytes) => Some(bytes.as_slice()),
            None => None,
        };
        let model = match try_c_char_ptr_to_str(model_bytes) {
            Err(e) => {
                return Err(
                    CueDeviceInfoFromFfiError::StringConversionError {
                        field: "model".to_owned(),
                        error: e,
                    },
                );
            },
            Ok(None) => {
                return Err(CueDeviceInfoFromFfiError::NullPointerField("model".to_owned()));
            },
            Ok(Some(model)) => model,
        };
        let layout = DeviceLayout::from_ffi_values(info.physical_layout, info.logical_layout);
        if info.leds_count < 0 {
            return Err(CueDeviceInfoFromFfiError::InvalidLedsCount(info.leds_count));
        }
        let leds_count = info.leds_count as u32;
        let channels = match channels_from_ffi(&info.channels) {
            Ok(channels) => channels,
            Err(e) => {
                return Err(CueDeviceInfoFromFfiError::ChannelsError(e));
            },
        };
        let capabilities = DeviceCapabilities::from_ffi(info.caps_mask);
        Ok(CueDeviceInfo { id, capabilities, channels, leds_count, device_type, layout, model })
    }
}

} // verus!
