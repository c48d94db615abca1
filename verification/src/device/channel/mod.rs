//! Channels of "DIY" devices and what is attached to them.
pub mod channels;
pub mod device;

pub use channels::{
    channels_from_ffi, spec_channels_from_ffi, ChannelsFromFfiError, ChannelsFromFfiErrorView,
};
pub use device::{ChannelDevice, ChannelDeviceFromFfiError, ChannelDeviceType};

use crate::marshal::{
    all_or_errors, classify_array, element_count, failures, lemma_take_next, spec_classify_array,
    spec_elements, successes, ArrayShape,
};
use crate::native::{RawChannelDeviceInfo, RawChannelInfo};
use vstd::prelude::*;

verus! {

/// The iCUE platform has two main types of products. Those that are
/// "channel-less" like mice and keyboards, and those that have "channels",
/// like CPU coolers and LED strips that can be combined.
///
/// This is one channel of a device of the second kind, with the devices
/// attached to it.
#[derive(Debug, Clone, PartialEq, Eq)]
pub struct Channel {
    pub total_led_count: u32,
    pub devices: Vec<ChannelDevice>,
}

/// The mathematical content of a [`Channel`].
pub ghost struct ChannelView {
    pub total_led_count: u32,
    pub devices: Seq<ChannelDevice>,
}

impl DeepView for Channel {
    type V = ChannelView;

    open spec fn deep_view(&self) -> ChannelView {
        ChannelView { total_led_count: self.total_led_count, devices: self.devices@ }
    }
}

/// The various errors that can happen when reading a channel.
#[derive(Debug, Clone, PartialEq, Eq)]
pub enum ChannelFromFfiError {
    /// The LED total is negative.
    InvalidLedCount(i32),
    /// The number of attached devices is negative.
    InvalidNumDevices(i32),
    /// Devices were announced but the pointer to them is null.
    DevicesNullPtr,
    /// Some attached devices could not be converted; one error for each.
    ChannelDeviceErrors(Vec<ChannelDeviceFromFfiError>),
}

/// The mathematical content of a [`ChannelFromFfiError`].
pub ghost enum ChannelFromFfiErrorView {
    InvalidLedCount(i32),
    InvalidNumDevices(i32),
    DevicesNullPtr,
    ChannelDeviceErrors(Seq<ChannelDeviceFromFfiError>),
}

impl DeepView for ChannelFromFfiError {
    type V = ChannelFromFfiErrorView;

    open spec fn deep_view(&self) -> ChannelFromFfiErrorView {
        match self {
            ChannelFromFfiError::InvalidLedCount(count) => ChannelFromFfiErrorView::InvalidLedCount(
                *count,
            ),
            ChannelFromFfiError::InvalidNumDevices(count) => {
                ChannelFromFfiErrorView::InvalidNumDevices(*count)
            },
            ChannelFromFfiError::DevicesNullPtr => ChannelFromFfiErrorView::DevicesNullPtr,
            ChannelFromFfiError::ChannelDeviceErrors(errors) => {
                ChannelFromFfiErrorView::ChannelDeviceErrors(errors@)
            },
        }
    }
}

/// The outcome of converting each attached device, in element order.
pub open spec fn spec_channel_devices(items: Seq<RawChannelDeviceInfo>) -> Seq<
    Result<ChannelDevice, ChannelDeviceFromFfiError>,
> {
    items.map_values(|d: RawChannelDeviceInfo| ChannelDevice::spec_from_ffi(d))
}

impl Channel {
    /// What a native channel record converts to. The LED total is validated
    /// first; then the array of attached devices is judged by its shape and
    /// converted all-or-nothing.
    pub open spec fn spec_from_ffi(channel_info: RawChannelInfo) -> Result<
        ChannelView,
        ChannelFromFfiErrorView,
    > {
        if channel_info.total_leds_count < 0 {
            Err(ChannelFromFfiErrorView::InvalidLedCount(channel_info.total_leds_count))
        } else {
            let total_led_count = channel_info.total_leds_count as u32;
            match spec_classify_array(channel_info.devices_count, channel_info.devices is None) {
                ArrayShape::Empty => Ok(ChannelView { total_led_count, devices: Seq::empty() }),
                ArrayShape::InvalidCount(count) => Err(
                    ChannelFromFfiErrorView::InvalidNumDevices(count),
                ),
                ArrayShape::NullPointer => Err(ChannelFromFfiErrorView::DevicesNullPtr),
                ArrayShape::Elements => match all_or_errors(
                    spec_channel_devices(
                        spec_elements(channel_info.devices_count as int, channel_info.devices->0@),
                    ),
                ) {
                    Ok(devices) => Ok(ChannelView { total_led_count, devices }),
                    Err(errors) => Err(ChannelFromFfiErrorView::ChannelDeviceErrors(errors)),
                },
            }
        }
    }

    /// Converts a native channel record.
    pub fn from_ffi(channel_info: &RawChannelInfo) -> (res: Result<Self, ChannelFromFfiError>)
        ensures
            match res {
                Ok(channel) => Self::spec_from_ffi(*channel_info) == Ok::<
                    ChannelView,
                    ChannelFromFfiErrorView,
                >(channel.deep_view()),
                Err(error) => Self::spec_from_ffi(*channel_info) == Err::<
                    ChannelView,
                    ChannelFromFfiErrorView,
                >(error.deep_view()),
            },
            channel_info.total_leds_count >= 0 && channel_info.devices_count < 0 ==> res == Err::<
                Self,
                ChannelFromFfiError,
            >(ChannelFromFfiError::InvalidNumDevices(channel_info.devices_count)),
            channel_info.total_leds_count >= 0 && channel_info.devices_count == 0 ==> (res matches Ok(
                channel,
            ) && channel.devices@.len() == 0),
    {
        if channel_info.total_leds_count < 0 {
            return Err(ChannelFromFfiError::InvalidLedCount(channel_info.total_leds_count));
        }
        let total_led_count: u32 = channel_info.total_leds_count as u32;
        match classify_array(channel_info.devices_count, channel_info.devices.is_none()) {
            ArrayShape::Empty => Ok(Channel { total_led_count, devices: Vec::new() }),
            ArrayShape::InvalidCount(count) => Err(ChannelFromFfiError::InvalidNumDevices(count)),
            ArrayShape::NullPointer => Err(ChannelFromFfiError::DevicesNullPtr),
            ArrayShape::Elements => {
                let items = channel_info.devices.as_ref().unwrap();
                let n = element_count(channel_info.devices_count, items.len());
                let ghost results = spec_channel_devices(
                    spec_elements(channel_info.devices_count as int, items@),
                );
                let mut errs: Vec<ChannelDeviceFromFfiError> = Vec::new();
                let mut devices: Vec<ChannelDevice> = Vec::new();
                let mut i: usize = 0;
                while i < n
                    invariant
                        i <= n,
                        n <= items.len(),
                        results == spec_channel_devices(items@.take(n as int)),
                        devices@ == successes(results.take(i as int)),
                        errs@ == failures(results.take(i as int)),
                    decreases n - i,
                {
                    proof {
                        lemma_take_next(results, i as int);
                    }
                    match ChannelDevice::from_ffi(&items[i]) {
                        Ok(cd) => devices.push(cd),
                        Err(e) => errs.push(e),
                    }
                    i += 1;
                }
                proof {
                    assert(results.take(i as int) =~= results);
                }
                if errs.len() != 0 {
                    Err(ChannelFromFfiError::ChannelDeviceErrors(errs))
                } else {
                    Ok(Channel { total_led_count, devices })
                }
            },
        }
    }
}

} // verus!
