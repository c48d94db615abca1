//! LED colours and positions of identifier-addressed devices.
use crate::native::RawSessionLedPosition;
use vstd::prelude::*;

verus! {

/// An LED color value, field for field the native colour record.
#[derive(Debug, Clone, Copy, PartialEq, Eq, Hash)]
pub struct LedColor {
    /// LED locally-unique identifier.
    pub id: u32,
    pub r: u8,
    pub g: u8,
    pub b: u8,
    pub a: u8,
}

impl LedColor {
    /// Create a new LED color.
    pub fn new(id: u32, r: u8, g: u8, b: u8, a: u8) -> (color: Self)
        ensures
            color == (LedColor { id, r, g, b, a }),
    {
        Self { id, r, g, b, a }
    }

    /// Create an opaque RGB color (alpha = 255).
    pub fn rgb(id: u32, r: u8, g: u8, b: u8) -> (color: Self)
        ensures
            color == (LedColor { id, r, g, b, a: 255 }),
    {
        Self::new(id, r, g, b, 255)
    }
}

/// Position of an LED on a device, as reported by the SDK. The coordinates
/// are the bit patterns of the IEEE-754 doubles that the service reported.
#[derive(Debug, Clone, Copy, PartialEq, Eq)]
pub struct LedPosition {
    /// LED locally-unique identifier.
    pub id: u32,
    /// X coordinate (center).
    pub cx: u64,
    /// Y coordinate (center).
    pub cy: u64,
}

impl LedPosition {
    /// Convert from the native record.
    pub fn from_ffi(raw: &RawSessionLedPosition) -> (position: Self)
        ensures
            position == (LedPosition { id: raw.id, cx: raw.cx, cy: raw.cy }),
    {
        Self { id: raw.id, cx: raw.cx, cy: raw.cy }
    }
}

} // verus!
