//! Contains the `CueLed` struct, and all of its associated functionality and
//! errors.
use crate::device::DeviceIndex;
use crate::errors::{get_last_error, CueSdkError, CueSdkErrorResult};
use crate::native::{RawLedColor, RawLedPosition};
use vstd::prelude::*;

verus! {

/// The identifier of an LED, as the service numbers it.
#[derive(Debug, Clone, Copy, PartialEq, Eq, Hash)]
pub struct LedId(pub u32);

/// This struct contains static information about the led (id, position,
/// device index) as well as the last color we wrote to the color buffer, and
/// the last color that we manually checked (confirmed read from device).
#[derive(Debug, Clone, Copy, PartialEq, Eq)]
pub struct CueLed {
    pub id: LedId,
    pub position: LedPosition,
    pub device_index: DeviceIndex,
    pub last_checked_color: Option<LedColor>,
    pub last_buffed_color: Option<LedColor>,
}

/// The two-variant enum of errors that can occur when checking the color of a
/// `CueLed`.
#[derive(Debug, Clone, Copy, PartialEq, Eq)]
pub enum CheckColorError {
    /// The service failed to read the colour.
    SdkError(Option<CueSdkError>),
    /// The service gave channel values outside of 0..=255.
    LedColorError(LedColorFromFfiError),
}

/// A basic RGB struct for describing an LED color.
#[derive(Debug, Clone, Copy, PartialEq, Eq)]
pub struct LedColor {
    pub red: u8,
    pub blue: u8,
    pub green: u8,
}

/// An error for if the iCUE SDK returns invalid color values that aren't
/// between 0-255. It carries the values that were received, in the order of
/// the fields of [`LedColor`]: red, blue, green.
#[derive(Debug, Clone, Copy, PartialEq, Eq)]
pub struct LedColorFromFfiError(pub i32, pub i32, pub i32);

/// The position of a given `CueLed`.
///
/// Each coordinate is the bit pattern of the IEEE-754 double that the service
/// reported. Positions are in physical units for keyboards and otherwise are
/// "grid" based.
#[derive(Debug, Clone, Copy, PartialEq, Eq)]
pub struct LedPosition {
    pub top: u64,
    pub left: u64,
    pub height: u64,
    pub width: u64,
}

/// Whether a native channel value is a colour channel value.
pub open spec fn in_rgb_range(value: i32) -> bool {
    0 <= value < 256
}

impl LedColor {
    /// What a native colour converts to: the colour with the same channel
    /// values if all three are in range, otherwise the error that carries the
    /// three values received.
    pub open spec fn spec_from_ffi(color: RawLedColor) -> Result<LedColor, LedColorFromFfiError> {
        if in_rgb_range(color.r) && in_rgb_range(color.b) && in_rgb_range(color.g) {
            Ok(LedColor { red: color.r as u8, blue: color.b as u8, green: color.g as u8 })
        } else {
            Err(LedColorFromFfiError(color.r, color.b, color.g))
        }
    }

    /// The native colour that sets the LED `id` to this colour.
    pub open spec fn spec_to_ffi(self, id: LedId) -> RawLedColor {
        RawLedColor { led_id: id.0, r: self.red as i32, g: self.green as i32, b: self.blue as i32 }
    }

    /// Validates a native colour. This check is about content only: it comes
    /// after any check of counts and pointers.
    pub fn from_ffi(color: &RawLedColor) -> (res: Result<Self, LedColorFromFfiError>)
        ensures
            res == Self::spec_from_ffi(*color),
            res is Ok <==> in_rgb_range(color.r) && in_rgb_range(color.b) && in_rgb_range(color.g),
    {
        if !(0 <= color.r && color.r < 256) || !(0 <= color.b && color.b < 256) || !(0 <= color.g
            && color.g < 256) {
            Err(LedColorFromFfiError(color.r, color.b, color.g))
        } else {
            Ok(LedColor { red: color.r as u8, blue: color.b as u8, green: color.g as u8 })
        }
    }

    /// The native colour that sets the LED `id` to this colour.
    pub fn to_ffi(&self, id: LedId) -> (raw: RawLedColor)
        ensures
            raw == self.spec_to_ffi(id),
            Self::spec_from_ffi(raw) == Ok::<LedColor, LedColorFromFfiError>(*self),
    {
        RawLedColor { led_id: id.0, r: self.red as i32, g: self.green as i32, b: self.blue as i32 }
    }
}

/// The native colours that set each LED of `updates` to its colour, in the
/// same order.
pub open spec fn spec_colors_to_ffi(updates: Seq<(LedId, LedColor)>) -> Seq<RawLedColor> {
    updates.map_values(|u: (LedId, LedColor)| u.1.spec_to_ffi(u.0))
}

/// What comes back when the native colours `raw` are read: for each, its LED
/// and its validated colour.
pub open spec fn spec_colors_from_ffi(raw: Seq<RawLedColor>) -> Seq<
    (LedId, Result<LedColor, LedColorFromFfiError>),
> {
    raw.map_values(|c: RawLedColor| (LedId(c.led_id), LedColor::spec_from_ffi(c)))
}

/// Round trip of colours. Colours that are written out for a list of LEDs and
/// read back unchanged give, position by position, the same LED with the
/// same colour; none of them fails validation.
pub proof fn law_color_round_trip(updates: Seq<(LedId, LedColor)>)
    ensures
        spec_colors_from_ffi(spec_colors_to_ffi(updates)).len() == updates.len(),
        forall|i: int|
            0 <= i < updates.len() ==> #[trigger] spec_colors_from_ffi(
                spec_colors_to_ffi(updates),
            )[i] == (updates[i].0, Ok::<LedColor, LedColorFromFfiError>(updates[i].1)),
{
}

impl CueLed {
    /// The index of the device that this LED belongs to.
    pub fn device_index(&self) -> (index: DeviceIndex)
        ensures
            index == self.device_index,
    {
        self.device_index
    }

    /// The LED that a native position record describes, on the device with
    /// the given index. No colour is known for it yet.
    pub fn with_device_data_from_ffi(device_index: DeviceIndex, led: &RawLedPosition) -> (cue_led:
        Self)
        ensures
            cue_led == Self::spec_with_device_data_from_ffi(device_index, *led),
    {
        let id = LedId(led.led_id);
        let position = LedPosition {
            height: led.height,
            left: led.left,
            top: led.top,
            width: led.width,
        };
        CueLed { device_index, id, position, last_checked_color: None, last_buffed_color: None }
    }

    /// The LED that a native position record describes.
    pub open spec fn spec_with_device_data_from_ffi(
        device_index: DeviceIndex,
        led: RawLedPosition,
    ) -> CueLed {
        CueLed {
            device_index,
            id: LedId(led.led_id),
            position: LedPosition {
                top: led.top,
                left: led.left,
                height: led.height,
                width: led.width,
            },
            last_checked_color: None,
            last_buffed_color: None,
        }
    }

    /// The record to hand to the service when asking for this LED's colour:
    /// the LED's identifier, with channel values that no colour has.
    pub fn color_request(&self) -> (request: RawLedColor)
        ensures
            request.led_id == self.id.0,
            request.r == -1 && request.g == -1 && request.b == -1,
            LedColor::spec_from_ffi(request) is Err,
    {
        RawLedColor { led_id: self.id.0, r: -1, g: -1, b: -1 }
    }

    /// Takes in the answer to a colour request.
    ///
    /// `was_successful` is what the call returned, `color` the record as the
    /// service left it, and `last_error` the service's last error code, which
    /// is only looked at when the call failed. A successful call with a valid
    /// colour updates `last_checked_color`; one with invalid values changes
    /// nothing; a failed call forgets the colour.
    pub fn check_color(
        &mut self,
        was_successful: bool,
        color: &RawLedColor,
        last_error: u32,
    ) -> (res: Result<(), CheckColorError>)
        ensures
            was_successful ==> match LedColor::spec_from_ffi(*color) {
                Ok(c) => res is Ok && *final(self) == (CueLed {
                    last_checked_color: Some(c),
                    ..*old(self)
                }),
                Err(e) => res == Err::<(), CheckColorError>(CheckColorError::LedColorError(e))
                    && *final(self) == *old(self),
            },
            !was_successful ==> res == Err::<(), CheckColorError>(
                CheckColorError::SdkError(CueSdkError::spec_from_u32(last_error)),
            ) && *final(self) == (CueLed { last_checked_color: None, ..*old(self) }),
    {
        if was_successful {
            match LedColor::from_ffi(color) {
                Ok(c) => {
                    self.last_checked_color = Some(c);
                    Ok(())
                },
                Err(e) => Err(CheckColorError::LedColorError(e)),
            }
        } else {
            self.last_checked_color = None;
            Err(CheckColorError::SdkError(get_last_error(last_error)))
        }
    }

    /// The record to hand to the service when buffering `new_color` for this
    /// LED.
    pub fn color_buffer_request(&self, new_color: LedColor) -> (request: RawLedColor)
        ensures
            request == new_color.spec_to_ffi(self.id),
    {
        new_color.to_ffi(self.id)
    }

    /// Takes in the answer to buffering `new_color` for this LED:
    /// `last_buffed_color` follows only if the service accepted the colour.
    pub fn update_color_buffer(
        &mut self,
        new_color: LedColor,
        was_successful: bool,
        last_error: u32,
    ) -> (res: CueSdkErrorResult)
        ensures
            was_successful ==> res is Ok && *final(self) == (CueLed {
                last_buffed_color: Some(new_color),
                ..*old(self)
            }),
            !was_successful ==> res == Err::<(), Option<CueSdkError>>(
                CueSdkError::spec_from_u32(last_error),
            ) && *final(self) == *old(self),
    {
        if was_successful {
            self.last_buffed_color = Some(new_color);
            Ok(())
        } else {
            Err(get_last_error(last_error))
        }
    }
}

} // verus!
