//! Contains the `KeyId` enum, with all of the key identifiers that are
//! supported from the iCUE SDK, numbered as the index-based interface of the
//! service numbers them.
use vstd::prelude::*;

verus! {

/// All of the key identifiers that are expected and supported from the iCUE SDK.
#[derive(Debug, Copy, Clone, PartialEq, Eq)]
pub enum KeyId {
    KeyboardG1,
    KeyboardG2,
    KeyboardG3,
    KeyboardG4,
    KeyboardG5,
    KeyboardG6,
    KeyboardG7,
    KeyboardG8,
    KeyboardG9,
    KeyboardG10,
    KeyboardG11,
    KeyboardG12,
    KeyboardG13,
    KeyboardG14,
    KeyboardG15,
    KeyboardG16,
    KeyboardG17,
    KeyboardG18,
    MouseM1,
    MouseM2,
    MouseM3,
    MouseM4,
    MouseM5,
    MouseM6,
    MouseM7,
    MouseM8,
    MouseM9,
    MouseM10,
    MouseM11,
    MouseM12,
}

impl KeyId {
    /// The native code of this key.
    pub open spec fn spec_to_u32(self) -> u32 {
        match self {
            KeyId::KeyboardG1 => 1,
            KeyId::KeyboardG2 => 2,
            KeyId::KeyboardG3 => 3,
            KeyId::KeyboardG4 => 4,
            KeyId::KeyboardG5 => 5,
            KeyId::KeyboardG6 => 6,
            KeyId::KeyboardG7 => 7,
            KeyId::KeyboardG8 => 8,
            KeyId::KeyboardG9 => 9,
            KeyId::KeyboardG10 => 10,
            KeyId::KeyboardG11 => 11,
            KeyId::KeyboardG12 => 12,
            KeyId::KeyboardG13 => 13,
            KeyId::KeyboardG14 => 14,
            KeyId::KeyboardG15 => 15,
            KeyId::KeyboardG16 => 16,
            KeyId::KeyboardG17 => 17,
            KeyId::KeyboardG18 => 18,
            KeyId::MouseM1 => 19,
            KeyId::MouseM2 => 20,
            KeyId::MouseM3 => 21,
            KeyId::MouseM4 => 22,
            KeyId::MouseM5 => 23,
            KeyId::MouseM6 => 24,
            KeyId::MouseM7 => 25,
            KeyId::MouseM8 => 26,
            KeyId::MouseM9 => 27,
            KeyId::MouseM10 => 28,
            KeyId::MouseM11 => 29,
            KeyId::MouseM12 => 30,
        }
    }

    /// The key with the given native code, if there is one.
    pub open spec fn spec_from_u32(code: u32) -> Option<Self> {
        if code == 1 {
            Some(KeyId::KeyboardG1)
        } else if code == 2 {
            Some(KeyId::KeyboardG2)
        } else if code == 3 {
            Some(KeyId::KeyboardG3)
        } else if code == 4 {
            Some(KeyId::KeyboardG4)
        } else if code == 5 {
            Some(KeyId::KeyboardG5)
        } else if code == 6 {
            Some(KeyId::KeyboardG6)
        } else if code == 7 {
            Some(KeyId::KeyboardG7)
        } else if code == 8 {
            Some(KeyId::KeyboardG8)
        } else if code == 9 {
            Some(KeyId::KeyboardG9)
        } else if code == 10 {
            Some(KeyId::KeyboardG10)
        } else if code == 11 {
            Some(KeyId::KeyboardG11)
        } else if code == 12 {
            Some(KeyId::KeyboardG12)
        } else if code == 13 {
            Some(KeyId::KeyboardG13)
        } else if code == 14 {
            Some(KeyId::KeyboardG14)
        } else if code == 15 {
            Some(KeyId::KeyboardG15)
        } else if code == 16 {
            Some(KeyId::KeyboardG16)
        } else if code == 17 {
            Some(KeyId::KeyboardG17)
        } else if code == 18 {
            Some(KeyId::KeyboardG18)
        } else if code == 19 {
            Some(KeyId::MouseM1)
        } else if code == 20 {
            Some(KeyId::MouseM2)
        } else if code == 21 {
            Some(KeyId::MouseM3)
        } else if code == 22 {
            Some(KeyId::MouseM4)
        } else if code == 23 {
            Some(KeyId::MouseM5)
        } else if code == 24 {
            Some(KeyId::MouseM6)
        } else if code == 25 {
            Some(KeyId::MouseM7)
        } else if code == 26 {
            Some(KeyId::MouseM8)
        } else if code == 27 {
            Some(KeyId::MouseM9)
        } else if code == 28 {
            Some(KeyId::MouseM10)
        } else if code == 29 {
            Some(KeyId::MouseM11)
        } else if code == 30 {
            Some(KeyId::MouseM12)
        } else {
            None
        }
    }

    /// The native code of this key.
    pub fn to_u32(self) -> (code: u32)
        ensures
            code == self.spec_to_u32(),
            Self::spec_from_u32(code) == Some(self),
    {
        match self {
            KeyId::KeyboardG1 => 1,
            KeyId::KeyboardG2 => 2,
            KeyId::KeyboardG3 => 3,
            KeyId::KeyboardG4 => 4,
            KeyId::KeyboardG5 => 5,
            KeyId::KeyboardG6 => 6,
            KeyId::KeyboardG7 => 7,
            KeyId::KeyboardG8 => 8,
            KeyId::KeyboardG9 => 9,
            KeyId::KeyboardG10 => 10,
            KeyId::KeyboardG11 => 11,
            KeyId::KeyboardG12 => 12,
            KeyId::KeyboardG13 => 13,
            KeyId::KeyboardG14 => 14,
            KeyId::KeyboardG15 => 15,
            KeyId::KeyboardG16 => 16,
            KeyId::KeyboardG17 => 17,
            KeyId::KeyboardG18 => 18,
            KeyId::MouseM1 => 19,
            KeyId::MouseM2 => 20,
            KeyId::MouseM3 => 21,
            KeyId::MouseM4 => 22,
            KeyId::MouseM5 => 23,
            KeyId::MouseM6 => 24,
            KeyId::MouseM7 => 25,
            KeyId::MouseM8 => 26,
            KeyId::MouseM9 => 27,
            KeyId::MouseM10 => 28,
            KeyId::MouseM11 => 29,
            KeyId::MouseM12 => 30,
        }
    }

    /// The key with the given native code; `None` for a code that names
    /// no key.
    pub fn from_u32(code: u32) -> (res: Option<Self>)
        ensures
            res == Self::spec_from_u32(code),
            res matches Some(v) ==> v.spec_to_u32() == code,
    {
        match code {
            1 => Some(KeyId::KeyboardG1),
            2 => Some(KeyId::KeyboardG2),
            3 => Some(KeyId::KeyboardG3),
            4 => Some(KeyId::KeyboardG4),
            5 => Some(KeyId::KeyboardG5),
            6 => Some(KeyId::KeyboardG6),
            7 => Some(KeyId::KeyboardG7),
            8 => Some(KeyId::KeyboardG8),
            9 => Some(KeyId::KeyboardG9),
            10 => Some(KeyId::KeyboardG10),
            11 => Some(KeyId::KeyboardG11),
            12 => Some(KeyId::KeyboardG12),
            13 => Some(KeyId::KeyboardG13),
            14 => Some(KeyId::KeyboardG14),
            15 => Some(KeyId::KeyboardG15),
            16 => Some(KeyId::KeyboardG16),
            17 => Some(KeyId::KeyboardG17),
            18 => Some(KeyId::KeyboardG18),
            19 => Some(KeyId::MouseM1),
            20 => Some(KeyId::MouseM2),
            21 => Some(KeyId::MouseM3),
            22 => Some(KeyId::MouseM4),
            23 => Some(KeyId::MouseM5),
            24 => Some(KeyId::MouseM6),
            25 => Some(KeyId::MouseM7),
            26 => Some(KeyId::MouseM8),
            27 => Some(KeyId::MouseM9),
            28 => Some(KeyId::MouseM10),
            29 => Some(KeyId::MouseM11),
            30 => Some(KeyId::MouseM12),
            _ => None,
        }
    }
}

} // verus!
