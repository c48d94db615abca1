use vstd::prelude::*;

verus! {

/// The layout of the given device, with keyboards having a `physical_layout`
/// and `logical_layout` while mice only have a `physical_layout`.
#[derive(Debug, Clone, Copy, PartialEq, Eq)]
pub enum DeviceLayout {
    Keyboard { physical_layout: PhysicalLayout, logical_layout: LogicalLayout },
    Mouse { physical_layout: PhysicalLayout },
}

impl DeviceLayout {
    /// The layout that a pair of native layout codes describes: none without
    /// a known physical layout, a keyboard's when the logical layout is known
    /// too, a mouse's otherwise.
    pub open spec fn spec_from_ffi_values(physical_layout: u32, logical_layout: u32) -> Option<
        Self,
    > {
        match PhysicalLayout::spec_from_u32(physical_layout) {
            None => None,
            Some(pl) => match LogicalLayout::spec_from_u32(logical_layout) {
                Some(ll) => Some(DeviceLayout::Keyboard { physical_layout: pl, logical_layout: ll }),
                None => Some(DeviceLayout::Mouse { physical_layout: pl }),
            },
        }
    }

    /// Reads the layout out of the two native layout codes.
    pub fn from_ffi_values(physical_layout: u32, logical_layout: u32) -> (res: Option<Self>)
        ensures
            res == Self::spec_from_ffi_values(physical_layout, logical_layout),
    {
        let physical = PhysicalLayout::from_u32(physical_layout);
        let logical = LogicalLayout::from_u32(logical_layout);
        match physical {
            None => None,
            Some(pl) => match logical {
                Some(ll) => Some(DeviceLayout::Keyboard { physical_layout: pl, logical_layout: ll }),
                None => Some(DeviceLayout::Mouse { physical_layout: pl }),
            },
        }
    }
}

/// The various physical layouts that a `CueDevice` can have: keyboard
/// layouts, and LED zone counts of mice.
#[derive(Debug, Copy, Clone, PartialEq, Eq)]
pub enum PhysicalLayout {
    KeyboardUs,
    KeyboardUk,
    KeyboardBr,
    KeyboardJp,
    KeyboardKr,
    MouseLedCount1,
    MouseLedCount2,
    MouseLedCount3,
    MouseLedCount4,
}

impl PhysicalLayout {
    /// The native code of this physical layout.
    pub open spec fn spec_to_u32(self) -> u32 {
        match self {
            PhysicalLayout::KeyboardUs => 1,
            PhysicalLayout::KeyboardUk => 2,
            PhysicalLayout::KeyboardBr => 3,
            PhysicalLayout::KeyboardJp => 4,
            PhysicalLayout::KeyboardKr => 5,
            PhysicalLayout::MouseLedCount1 => 6,
            PhysicalLayout::MouseLedCount2 => 7,
            PhysicalLayout::MouseLedCount3 => 8,
            PhysicalLayout::MouseLedCount4 => 9,
        }
    }

    /// The physical layout with the given native code, if there is one.
    pub open spec fn spec_from_u32(code: u32) -> Option<Self> {
        if code == 1 {
            Some(PhysicalLayout::KeyboardUs)
        } else if code == 2 {
            Some(PhysicalLayout::KeyboardUk)
        } else if code == 3 {
            Some(PhysicalLayout::KeyboardBr)
        } else if code == 4 {
            Some(PhysicalLayout::KeyboardJp)
        } else if code == 5 {
            Some(PhysicalLayout::KeyboardKr)
        } else if code == 6 {
            Some(PhysicalLayout::MouseLedCount1)
        } else if code == 7 {
            Some(PhysicalLayout::MouseLedCount2)
        } else if code == 8 {
            Some(PhysicalLayout::MouseLedCount3)
        } else if code == 9 {
            Some(PhysicalLayout::MouseLedCount4)
        } else {
            None
        }
    }

    /// The native code of this physical layout.
    pub fn to_u32(self) -> (code: u32)
        ensures
            code == self.spec_to_u32(),
            Self::spec_from_u32(code) == Some(self),
    {
        match self {
            PhysicalLayout::KeyboardUs => 1,
            PhysicalLayout::KeyboardUk => 2,
            PhysicalLayout::KeyboardBr => 3,
            PhysicalLayout::KeyboardJp => 4,
            PhysicalLayout::KeyboardKr => 5,
            PhysicalLayout::MouseLedCount1 => 6,
            PhysicalLayout::MouseLedCount2 => 7,
            PhysicalLayout::MouseLedCount3 => 8,
            PhysicalLayout::MouseLedCount4 => 9,
        }
    }

    /// The physical layout with the given native code; `None` for a code that names
    /// no physical layout.
    pub fn from_u32(code: u32) -> (res: Option<Self>)
        ensures
            res == Self::spec_from_u32(code),
            res matches Some(v) ==> v.spec_to_u32() == code,
    {
        match code {
            1 => Some(PhysicalLayout::KeyboardUs),
            2 => Some(PhysicalLayout::KeyboardUk),
            3 => Some(PhysicalLayout::KeyboardBr),
            4 => Some(PhysicalLayout::KeyboardJp),
            5 => Some(PhysicalLayout::KeyboardKr),
            6 => Some(PhysicalLayout::MouseLedCount1),
            7 => Some(PhysicalLayout::MouseLedCount2),
            8 => Some(PhysicalLayout::MouseLedCount3),
            9 => Some(PhysicalLayout::MouseLedCount4),
            _ => None,
        }
    }
}

/// The various logical layouts a keyboard `CueDevice` can have.
#[derive(Debug, Copy, Clone, PartialEq, Eq)]
pub enum LogicalLayout {
    KeyboardUsInt,
    KeyboardNa,
    KeyboardEu,
    KeyboardUk,
    KeyboardBe,
    KeyboardBr,
    KeyboardCh,
    KeyboardCn,
    KeyboardDe,
    KeyboardEs,
    KeyboardFr,
    KeyboardIt,
    KeyboardNd,
    KeyboardRu,
    KeyboardJp,
    KeyboardKr,
    KeyboardTw,
    KeyboardMex,
}

impl LogicalLayout {
    /// The native code of this logical layout.
    pub open spec fn spec_to_u32(self) -> u32 {
        match self {
            LogicalLayout::KeyboardUsInt => 1,
            LogicalLayout::KeyboardNa => 2,
            LogicalLayout::KeyboardEu => 3,
            LogicalLayout::KeyboardUk => 4,
            LogicalLayout::KeyboardBe => 5,
            LogicalLayout::KeyboardBr => 6,
            LogicalLayout::KeyboardCh => 7,
            LogicalLayout::KeyboardCn => 8,
            LogicalLayout::KeyboardDe => 9,
            LogicalLayout::KeyboardEs => 10,
            LogicalLayout::KeyboardFr => 11,
            LogicalLayout::KeyboardIt => 12,
            LogicalLayout::KeyboardNd => 13,
            LogicalLayout::KeyboardRu => 14,
            LogicalLayout::KeyboardJp => 15,
            LogicalLayout::KeyboardKr => 16,
            LogicalLayout::KeyboardTw => 17,
            LogicalLayout::KeyboardMex => 18,
        }
    }

    /// The logical layout with the given native code, if there is one.
    pub open spec fn spec_from_u32(code: u32) -> Option<Self> {
        if code == 1 {
            Some(LogicalLayout::KeyboardUsInt)
        } else if code == 2 {
            Some(LogicalLayout::KeyboardNa)
        } else if code == 3 {
            Some(LogicalLayout::KeyboardEu)
        } else if code == 4 {
            Some(LogicalLayout::KeyboardUk)
        } else if code == 5 {
            Some(LogicalLayout::KeyboardBe)
        } else if code == 6 {
            Some(LogicalLayout::KeyboardBr)
        } else if code == 7 {
            Some(LogicalLayout::KeyboardCh)
        } else if code == 8 {
            Some(LogicalLayout::KeyboardCn)
        } else if code == 9 {
            Some(LogicalLayout::KeyboardDe)
        } else if code == 10 {
            Some(LogicalLayout::KeyboardEs)
        } else if code == 11 {
            Some(LogicalLayout::KeyboardFr)
        } else if code == 12 {
            Some(LogicalLayout::KeyboardIt)
        } else if code == 13 {
            Some(LogicalLayout::KeyboardNd)
        } else if code == 14 {
            Some(LogicalLayout::KeyboardRu)
        } else if code == 15 {
            Some(LogicalLayout::KeyboardJp)
        } else if code == 16 {
            Some(LogicalLayout::KeyboardKr)
        } else if code == 17 {
            Some(LogicalLayout::KeyboardTw)
        } else if code == 18 {
            Some(LogicalLayout::KeyboardMex)
        } else {
            None
        }
    }

    /// The native code of this logical layout.
    pub fn to_u32(self) -> (code: u32)
        ensures
            code == self.spec_to_u32(),
            Self::spec_from_u32(code) == Some(self),
    {
        match self {
            LogicalLayout::KeyboardUsInt => 1,
            LogicalLayout::KeyboardNa => 2,
            LogicalLayout::KeyboardEu => 3,
            LogicalLayout::KeyboardUk => 4,
            LogicalLayout::KeyboardBe => 5,
            LogicalLayout::KeyboardBr => 6,
            LogicalLayout::KeyboardCh => 7,
            LogicalLayout::KeyboardCn => 8,
            LogicalLayout::KeyboardDe => 9,
            LogicalLayout::KeyboardEs => 10,
            LogicalLayout::KeyboardFr => 11,
            LogicalLayout::KeyboardIt => 12,
            LogicalLayout::KeyboardNd => 13,
            LogicalLayout::KeyboardRu => 14,
            LogicalLayout::KeyboardJp => 15,
            LogicalLayout::KeyboardKr => 16,
            LogicalLayout::KeyboardTw => 17,
            LogicalLayout::KeyboardMex => 18,
        }
    }

    /// The logical layout with the given native code; `None` for a code that names
    /// no logical layout.
    pub fn from_u32(code: u32) -> (res: Option<Self>)
        ensures
            res == Self::spec_from_u32(code),
            res matches Some(v) ==> v.spec_to_u32() == code,
    {
        match code {
            1 => Some(LogicalLayout::KeyboardUsInt),
            2 => Some(LogicalLayout::KeyboardNa),
            3 => Some(LogicalLayout::KeyboardEu),
            4 => Some(LogicalLayout::KeyboardUk),
            5 => Some(LogicalLayout::KeyboardBe),
            6 => Some(LogicalLayout::KeyboardBr),
            7 => Some(LogicalLayout::KeyboardCh),
            8 => Some(LogicalLayout::KeyboardCn),
            9 => Some(LogicalLayout::KeyboardDe),
            10 => Some(LogicalLayout::KeyboardEs),
            11 => Some(LogicalLayout::KeyboardFr),
            12 => Some(LogicalLayout::KeyboardIt),
            13 => Some(LogicalLayout::KeyboardNd),
            14 => Some(LogicalLayout::KeyboardRu),
            15 => Some(LogicalLayout::KeyboardJp),
            16 => Some(LogicalLayout::KeyboardKr),
            17 => Some(LogicalLayout::KeyboardTw),
            18 => Some(LogicalLayout::KeyboardMex),
            _ => None,
        }
    }
}

} // verus!
