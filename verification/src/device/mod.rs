//! Index-addressed devices: their static description, their channels and
//! their LEDs.
//!
//! The codes of the enums of this interface (device types, layouts, channel
//! device types, and likewise keys and errors in their modules) are numbered
//! as the index-based interface of the service numbers them. The
//! session-based interface numbers some of them differently (a QL fan is 5
//! there and 8 here) and has tables of its own, in `session` and `error`.
pub mod capabilities;
pub mod channel;
pub mod device_type;
pub mod id;
pub mod info;
pub mod layout;

pub use capabilities::DeviceCapabilities;
pub use channel::{
    channels_from_ffi, Channel, ChannelDevice, ChannelDeviceFromFfiError, ChannelDeviceType,
    ChannelFromFfiError, ChannelsFromFfiError,
};
pub use device_type::DeviceType;
pub use id::{DeviceId, DeviceIdFromFfiError};
pub use info::{CueDeviceInfo, CueDeviceInfoFromFfiError, CueDeviceInfoView};
pub use layout::{DeviceLayout, LogicalLayout, PhysicalLayout};

use crate::errors::{get_last_error, CueSdkError};
use crate::led::{CueLed, LedColor, LedColorFromFfiError};
use crate::marshal::{
    classify_array, element_count, failures, lemma_take_next, spec_classify_array, spec_elements,
    ArrayShape,
};
use crate::native::{RawLedColor, RawLedPosition, RawLedPositions};
use crate::property::{BooleanProperty, BooleanPropertyKey, Int32Property, Int32PropertyKey};
use vstd::prelude::*;

verus! {

pub type DeviceIndex = u32;

pub type DeviceCount = u32;

/// The `CueDevice` holds the static device information, the `device_index`
/// which much of the iCUE SDK depends on, and the `CueLed`s on the device,
/// which can be interacted with directly or "via" the `CueDevice` itself.
#[derive(Debug, Clone, PartialEq, Eq)]
pub struct CueDevice {
    pub device_info: CueDeviceInfo,
    pub device_index: DeviceIndex,
    pub leds: Vec<CueLed>,
}

/// The mathematical content of a [`CueDevice`].
pub ghost struct CueDeviceView {
    pub device_info: CueDeviceInfoView,
    pub device_index: DeviceIndex,
    pub leds: Seq<CueLed>,
}

impl DeepView for CueDevice {
    type V = CueDeviceView;

    open spec fn deep_view(&self) -> CueDeviceView {
        CueDeviceView {
            device_info: self.device_info.deep_view(),
            device_index: self.device_index,
            leds: self.leds@,
        }
    }
}

/// The error that can be returned when we try to create a `CueDevice` from
/// existing `CueDeviceInfo`: the LED positions could not be read.
#[derive(Debug, Clone, Copy, PartialEq, Eq)]
pub struct CueDeviceFromDeviceInfoAndIndexError(pub GetLedPositionsError);

/// The error that can occur when getting led positions fails for a given
/// `CueDevice`.
#[derive(Debug, Clone, Copy, PartialEq, Eq)]
pub enum GetLedPositionsError {
    /// The service returned no record; the value is what it named as the
    /// cause.
    SdkFailure(Option<CueSdkError>),
    /// The number of LEDs is negative.
    InvalidLedsCount(i32),
    /// LEDs were announced but the pointer to them is null.
    NullLedPositionsPointer,
}

/// The error that can occur when getting led information fails for a given
/// `CueDevice`.
#[derive(Debug, Clone, PartialEq, Eq)]
pub enum GetLedsError {
    GetPositionsError(GetLedPositionsError),
    GetColorsError(GetLedColorsError),
}

/// The error that can occur when getting led color information fails for a
/// given `CueDevice`.
#[derive(Debug, Clone, PartialEq, Eq)]
pub enum GetLedColorsError {
    /// The service failed; the value is what it named as the cause.
    SdkFailure(Option<CueSdkError>),
    /// Some colours had channel values out of range; one error for each.
    InvalidLedColorValues(Vec<LedColorFromFfiError>),
}

/// The mathematical content of a [`GetLedColorsError`].
pub ghost enum GetLedColorsErrorView {
    SdkFailure(Option<CueSdkError>),
    InvalidLedColorValues(Seq<LedColorFromFfiError>),
}

impl DeepView for GetLedColorsError {
    type V = GetLedColorsErrorView;

    open spec fn deep_view(&self) -> GetLedColorsErrorView {
        match self {
            GetLedColorsError::SdkFailure(error) => GetLedColorsErrorView::SdkFailure(*error),
            GetLedColorsError::InvalidLedColorValues(errors) => {
                GetLedColorsErrorView::InvalidLedColorValues(errors@)
            },
        }
    }
}

/// The mathematical content of a [`GetLedsError`].
pub ghost enum GetLedsErrorView {
    GetPositionsError(GetLedPositionsError),
    GetColorsError(GetLedColorsErrorView),
}

impl DeepView for GetLedsError {
    type V = GetLedsErrorView;

    open spec fn deep_view(&self) -> GetLedsErrorView {
        match self {
            GetLedsError::GetPositionsError(error) => GetLedsErrorView::GetPositionsError(*error),
            GetLedsError::GetColorsError(error) => GetLedsErrorView::GetColorsError(
                error.deep_view(),
            ),
        }
    }
}

/// The error that can be returned when we fail to get a property on a
/// `CueDevice`.
#[derive(Debug, Clone, PartialEq, Eq)]
pub enum GetPropertyError {
    /// The device does not support property lookups.
    NoPropertyLookupSupport {
        property_type: String,
        property_key_name: String,
        property_key_value: u32,
    },
    /// The service failed; the value is what it named as the cause.
    SdkErr(Option<CueSdkError>),
}

/// The mathematical content of a [`GetPropertyError`].
pub ghost enum GetPropertyErrorView {
    NoPropertyLookupSupport {
        property_type: Seq<char>,
        property_key_name: Seq<char>,
        property_key_value: u32,
    },
    SdkErr(Option<CueSdkError>),
}

impl DeepView for GetPropertyError {
    type V = GetPropertyErrorView;

    open spec fn deep_view(&self) -> GetPropertyErrorView {
        match self {
            GetPropertyError::NoPropertyLookupSupport {
                property_type,
                property_key_name,
                property_key_value,
            } => GetPropertyErrorView::NoPropertyLookupSupport {
                property_type: property_type@,
                property_key_name: property_key_name@,
                property_key_value: *property_key_value,
            },
            GetPropertyError::SdkErr(error) => GetPropertyErrorView::SdkErr(*error),
        }
    }
}

/// The LEDs that a native array of positions describes, in element order.
pub open spec fn spec_leds(index: DeviceIndex, positions: Seq<RawLedPosition>) -> Seq<CueLed> {
    positions.map_values(|p: RawLedPosition| CueLed::spec_with_device_data_from_ffi(index, p))
}

/// What the answer to a request for LED positions converts to. No record
/// means that the service failed; a record is judged by the shape of its
/// array, whose elements always convert.
pub open spec fn spec_leds_for_device_index(
    index: DeviceIndex,
    positions: Option<&RawLedPositions>,
    last_error: u32,
) -> Result<Seq<CueLed>, GetLedPositionsError> {
    match positions {
        None => Err(GetLedPositionsError::SdkFailure(CueSdkError::spec_from_u32(last_error))),
        Some(p) => match spec_classify_array(p.number_of_led, p.led_position is None) {
            ArrayShape::Empty => Ok(Seq::empty()),
            ArrayShape::InvalidCount(count) => Err(GetLedPositionsError::InvalidLedsCount(count)),
            ArrayShape::NullPointer => Err(GetLedPositionsError::NullLedPositionsPointer),
            ArrayShape::Elements => Ok(
                spec_leds(index, spec_elements(p.number_of_led as int, p.led_position->0@)),
            ),
        },
    }
}

/// Converts the answer to a request for the LED positions of the device at
/// `index`. `positions` is the record that the service returned, `None` for a
/// null pointer; `last_error` is the service's last error code, which is only
/// looked at when no record was returned.
pub fn get_leds_for_device_index(
    index: DeviceIndex,
    positions: Option<&RawLedPositions>,
    last_error: u32,
) -> (res: Result<Vec<CueLed>, GetLedPositionsError>)
    ensures
        match res {
            Ok(leds) => spec_leds_for_device_index(index, positions, last_error) == Ok::<
                Seq<CueLed>,
                GetLedPositionsError,
            >(leds@),
            Err(error) => spec_leds_for_device_index(index, positions, last_error) == Err::<
                Seq<CueLed>,
                GetLedPositionsError,
            >(error),
        },
        positions matches Some(p) ==> (p.number_of_led < 0 ==> res == Err::<
            Vec<CueLed>,
            GetLedPositionsError,
        >(GetLedPositionsError::InvalidLedsCount(p.number_of_led))),
        positions matches Some(p) ==> (p.number_of_led == 0 ==> (res matches Ok(leds) && leds@.len()
            == 0)),
{
    let ffi_leds = match positions {
        None => {
            return Err(GetLedPositionsError::SdkFailure(get_last_error(last_error)));
        },
        Some(p) => p,
    };
    match classify_array(ffi_leds.number_of_led, ffi_leds.led_position.is_none()) {
        ArrayShape::Empty => Ok(Vec::new()),
        ArrayShape::InvalidCount(count) => Err(GetLedPositionsError::InvalidLedsCount(count)),
        ArrayShape::NullPointer => Err(GetLedPositionsError::NullLedPositionsPointer),
        ArrayShape::Elements => {
            let items = ffi_leds.led_position.as_ref().unwrap();
            let n = element_count(ffi_leds.number_of_led, items.len());
            let mut leds: Vec<CueLed> = Vec::new();
            let mut i: usize = 0;
            while i < n
                invariant
                    i <= n,
                    n <= items.len(),
                    leds@ == spec_leds(index, items@.take(n as int)).take(i as int),
                decreases n - i,
            {
                leds.push(CueLed::with_device_data_from_ffi(index, &items[i]));
                i += 1;
                proof {
                    assert(leds@ =~= spec_leds(index, items@.take(n as int)).take(i as int));
                }
            }
            proof {
                assert(leds@ =~= spec_leds(index, items@.take(n as int)));
            }
            Ok(leds)
        },
    }
}

/// The records to hand to the service when asking for the colours of `leds`:
/// one request per LED, in the same order.
pub fn led_color_requests(leds: &Vec<CueLed>) -> (requests: Vec<RawLedColor>)
    ensures
        requests@.len() == leds@.len(),
        forall|i: int|
            0 <= i < leds@.len() ==> {
                let r = #[trigger] requests@[i];
                r.led_id == leds@[i].id.0 && r.r == -1 && r.g == -1 && r.b == -1
            },
{
    let mut requests: Vec<RawLedColor> = Vec::new();
    let mut i: usize = 0;
    while i < leds.len()
        invariant
            i <= leds.len(),
            requests@.len() == i,
            forall|j: int|
                0 <= j < i ==> {
                    let r = #[trigger] requests@[j];
                    r.led_id == leds@[j].id.0 && r.r == -1 && r.g == -1 && r.b == -1
                },
        decreases leds.len() - i,
    {
        requests.push(leds[i].color_request());
        i += 1;
    }
    requests
}

/// An LED after the native colour `color` was read for it: a valid colour is
/// remembered as the last checked one, an invalid one changes nothing.
pub open spec fn spec_checked(led: CueLed, color: RawLedColor) -> CueLed {
    match LedColor::spec_from_ffi(color) {
        Ok(c) => CueLed { last_checked_color: Some(c), ..led },
        Err(_) => led,
    }
}

/// The outcome of validating each colour, in element order.
pub open spec fn spec_color_results(colors: Seq<RawLedColor>) -> Seq<
    Result<LedColor, LedColorFromFfiError>,
> {
    colors.map_values(|c: RawLedColor| LedColor::spec_from_ffi(c))
}

/// The smaller of two lengths.
pub open spec fn spec_min(a: int, b: int) -> int {
    if a <= b {
        a
    } else {
        b
    }
}

/// Takes in the answer to a request for the colours of `leds`.
///
/// `was_successful` is what the call returned, `colors` the records as the
/// service left them, the record at each place answering the LED at the same
/// place, and `last_error` the service's last error code, which is only
/// looked at when the call failed. After a failed call nothing changes. After
/// a successful one every LED whose colour is valid remembers it, and the
/// invalid colours are all reported, in element order.
pub fn get_led_colors(
    leds: &mut Vec<CueLed>,
    was_successful: bool,
    colors: &Vec<RawLedColor>,
    last_error: u32,
) -> (res: Result<(), GetLedColorsError>)
    ensures
        !was_successful ==> final(leds)@ == old(leds)@ && (res matches Err(e) && e.deep_view()
            == GetLedColorsErrorView::SdkFailure(CueSdkError::spec_from_u32(last_error))),
        was_successful ==> {
            let n = spec_min(old(leds)@.len() as int, colors@.len() as int);
            let results = spec_color_results(colors@.take(n));
            &&& final(leds)@.len() == old(leds)@.len()
            &&& forall|i: int|
                0 <= i < n ==> #[trigger] final(leds)@[i] == spec_checked(old(leds)@[i], colors@[i])
            &&& forall|i: int|
                n <= i < old(leds)@.len() ==> #[trigger] final(leds)@[i] == old(leds)@[i]
            &&& match res {
                Ok(()) => failures(results).len() == 0,
                Err(e) => failures(results).len() > 0 && e.deep_view()
                    == GetLedColorsErrorView::InvalidLedColorValues(failures(results)),
            }
        },
{
    if !was_successful {
        return Err(GetLedColorsError::SdkFailure(get_last_error(last_error)));
    }
    let n = if leds.len() <= colors.len() {
        leds.len()
    } else {
        colors.len()
    };
    let ghost results = spec_color_results(colors@.take(n as int));
    let mut errs: Vec<LedColorFromFfiError> = Vec::new();
    let mut i: usize = 0;
    while i < n
        invariant
            i <= n,
            n == spec_min(old(leds)@.len() as int, colors@.len() as int),
            results == spec_color_results(colors@.take(n as int)),
            leds@.len() == old(leds)@.len(),
            forall|j: int|
                0 <= j < i ==> #[trigger] leds@[j] == spec_checked(old(leds)@[j], colors@[j]),
            forall|j: int| i <= j < leds@.len() ==> #[trigger] leds@[j] == old(leds)@[j],
            errs@ == failures(results.take(i as int)),
        decreases n - i,
    {
        proof {
            lemma_take_next(results, i as int);
        }
        match LedColor::from_ffi(&colors[i]) {
            Ok(c) => {
                let mut led = leds[i];
                led.last_checked_color = Some(c);
                leds.set(i, led);
            },
            Err(e) => errs.push(e),
        }
        i += 1;
    }
    proof {
        assert(results.take(i as int) =~= results);
    }
    if errs.len() == 0 {
        Ok(())
    } else {
        Err(GetLedColorsError::InvalidLedColorValues(errs))
    }
}

impl CueDevice {
    /// Puts a device together from its description, its index, and the answer
    /// to the request for its LED positions (see
    /// [`get_leds_for_device_index`]).
    pub fn from_device_info_and_index(
        device_index: DeviceIndex,
        device_info: CueDeviceInfo,
        positions: Option<&RawLedPositions>,
        last_error: u32,
    ) -> (res: Result<Self, CueDeviceFromDeviceInfoAndIndexError>)
        ensures
            match res {
                Ok(device) => spec_leds_for_device_index(device_index, positions, last_error)
                    == Ok::<Seq<CueLed>, GetLedPositionsError>(device.leds@) && device.device_info
                    == device_info && device.device_index == device_index,
                Err(error) => spec_leds_for_device_index(device_index, positions, last_error)
                    == Err::<Seq<CueLed>, GetLedPositionsError>(error.0),
            },
    {
        match get_leds_for_device_index(device_index, positions, last_error) {
            Ok(leds) => Ok(CueDevice { device_info, leds, device_index }),
            Err(e) => Err(CueDeviceFromDeviceInfoAndIndexError(e)),
        }
    }

    /// Takes in the answer to a request for the colours of this device's
    /// LEDs (see [`get_led_colors`]); only the LEDs can change.
    pub fn refresh_leds_colors(
        &mut self,
        was_successful: bool,
        colors: &Vec<RawLedColor>,
        last_error: u32,
    ) -> (res: Result<(), GetLedsError>)
        ensures
            final(self).device_info == old(self).device_info,
            final(self).device_index == old(self).device_index,
            !was_successful ==> final(self).leds@ == old(self).leds@ && (res matches Err(e)
                && e.deep_view() == GetLedsErrorView::GetColorsError(
                GetLedColorsErrorView::SdkFailure(CueSdkError::spec_from_u32(last_error)),
            )),
            was_successful ==> {
                let n = spec_min(old(self).leds@.len() as int, colors@.len() as int);
                let results = spec_color_results(colors@.take(n));
                &&& final(self).leds@.len() == old(self).leds@.len()
                &&& forall|i: int|
                    0 <= i < n ==> #[trigger] final(self).leds@[i] == spec_checked(
                        old(self).leds@[i],
                        colors@[i],
                    )
                &&& forall|i: int|
                    n <= i < old(self).leds@.len() ==> #[trigger] final(self).leds@[i]
                        == old(self).leds@[i]
                &&& match res {
                    Ok(()) => failures(results).len() == 0,
                    Err(e) => failures(results).len() > 0 && e.deep_view()
                        == GetLedsErrorView::GetColorsError(
                        GetLedColorsErrorView::InvalidLedColorValues(failures(results)),
                    ),
                }
            },
    {
        match get_led_colors(&mut self.leds, was_successful, colors, last_error) {
            Ok(()) => Ok(()),
            Err(e) => Err(GetLedsError::GetColorsError(e)),
        }
    }

    /// Asks for the boolean property `key` of this device. `Ok` tells the
    /// caller to read the property from the service now and to hand the
    /// answer to [`bool_property_read`](Self::bool_property_read). A device
    /// without property lookup has no properties, and the service is not to
    /// be asked.
    pub fn get_bool_property(&self, key: BooleanPropertyKey) -> (res: Result<(), GetPropertyError>)
        ensures
            self.device_info.capabilities.property_lookup ==> res is Ok,
            !self.device_info.capabilities.property_lookup ==> (res matches Err(e) && e.deep_view()
                == GetPropertyErrorView::NoPropertyLookupSupport {
                property_type: "Bool"@,
                property_key_name: key.spec_name(),
                property_key_value: key.spec_to_u32(),
            }),
    {
        if !self.device_info.capabilities.property_lookup {
            return Err(
                GetPropertyError::NoPropertyLookupSupport {
                    property_type: "Bool".to_owned(),
                    property_key_name: key.name().to_owned(),
                    property_key_value: u32::from(key),
                },
            );
        }
        Ok(())
    }

    /// Takes in the answer to reading the boolean property `key` of this
    /// device: `was_successful` is what the call returned, `value` what the
    /// service wrote, and `last_error` the service's last error code, which
    /// is only looked at when the call failed.
    pub fn bool_property_read(
        &self,
        key: BooleanPropertyKey,
        was_successful: bool,
        value: bool,
        last_error: u32,
    ) -> (res: Result<BooleanProperty, GetPropertyError>)
        ensures
            was_successful ==> res == Ok::<BooleanProperty, GetPropertyError>(
                BooleanProperty { device_index: self.device_index, key, last_value: value },
            ),
            !was_successful ==> (res matches Err(e) && e.deep_view()
                == GetPropertyErrorView::SdkErr(CueSdkError::spec_from_u32(last_error))),
    {
        if was_successful {
            Ok(BooleanProperty::new(self.device_index, key, value))
        } else {
            Err(GetPropertyError::SdkErr(get_last_error(last_error)))
        }
    }

    /// Asks for the integer property `key` of this device; see
    /// [`get_bool_property`](Self::get_bool_property). The answer goes to
    /// [`int32_property_read`](Self::int32_property_read).
    pub fn get_int32_property(&self, key: Int32PropertyKey) -> (res: Result<(), GetPropertyError>)
        ensures
            self.device_info.capabilities.property_lookup ==> res is Ok,
            !self.device_info.capabilities.property_lookup ==> (res matches Err(e) && e.deep_view()
                == GetPropertyErrorView::NoPropertyLookupSupport {
                property_type: "Int32"@,
                property_key_name: key.spec_name(),
                property_key_value: key.spec_to_u32(),
            }),
    {
        if !self.device_info.capabilities.property_lookup {
            return Err(
                GetPropertyError::NoPropertyLookupSupport {
                    property_type: "Int32".to_owned(),
                    property_key_name: key.name().to_owned(),
                    property_key_value: u32::from(key),
                },
            );
        }
        Ok(())
    }

    /// Takes in the answer to reading the integer property `key` of this
    /// device; see [`bool_property_read`](Self::bool_property_read) for the
    /// arguments.
    pub fn int32_property_read(
        &self,
        key: Int32PropertyKey,
        was_successful: bool,
        value: i32,
        last_error: u32,
    ) -> (res: Result<Int32Property, GetPropertyError>)
        ensures
            was_successful ==> res == Ok::<Int32Property, GetPropertyError>(
                Int32Property { device_index: self.device_index, key, last_value: value },
            ),
            !was_successful ==> (res matches Err(e) && e.deep_view()
                == GetPropertyErrorView::SdkErr(CueSdkError::spec_from_u32(last_error))),
    {
        if was_successful {
            Ok(Int32Property::new(self.device_index, key, value))
        } else {
            Err(GetPropertyError::SdkErr(get_last_error(last_error)))
        }
    }
}

} // verus!
