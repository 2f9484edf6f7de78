//! The values of the tag `ResolutionUnit`.

use vstd::prelude::*;
use vstd::string::*;

verus! {

/// The unit in which the resolution of an Exif block is given.
#[derive(Debug, Clone, Copy, PartialEq, Eq, Structural)]
pub enum ResolutionUnit {
    PixelsPerInch,
    PixelsPerCm,
    NoUnit,
    Unknown,
}

/// The unit that a number stands for, where it stands for one.
pub open spec fn resolution_unit_of(val: int) -> Option<ResolutionUnit> {
    if val == 1 {
        Some(ResolutionUnit::NoUnit)
    } else if val == 2 {
        Some(ResolutionUnit::PixelsPerInch)
    } else if val == 3 {
        Some(ResolutionUnit::PixelsPerCm)
    } else {
        None
    }
}

/// The text of a unit.
pub open spec fn resolution_unit_text(v: ResolutionUnit) -> Seq<char> {
    match v {
        ResolutionUnit::PixelsPerInch => "inches"@,
        ResolutionUnit::PixelsPerCm => "cm"@,
        ResolutionUnit::NoUnit => "none"@,
        ResolutionUnit::Unknown => "unknown"@,
    }
}

impl ResolutionUnit {
    /// The unit that a number stands for; `Unknown` for a number that stands
    /// for none.
    pub fn from(val: u8) -> (r: ResolutionUnit)
        ensures
            r == match resolution_unit_of(val as int) {
                Some(v) => v,
                None => ResolutionUnit::Unknown,
            },
    {
        match val {
            0x01 => ResolutionUnit::NoUnit,
            0x02 => ResolutionUnit::PixelsPerInch,
            0x03 => ResolutionUnit::PixelsPerCm,
            _ => ResolutionUnit::Unknown,
        }
    }

    /// The unit that a number stands for, where it stands for one.
    pub fn try_from(val: usize) -> (r: Option<ResolutionUnit>)
        ensures
            r == resolution_unit_of(val as int),
    {
        match val {
            1 => Some(ResolutionUnit::NoUnit),
            2 => Some(ResolutionUnit::PixelsPerInch),
            3 => Some(ResolutionUnit::PixelsPerCm),
            _ => None,
        }
    }

    /// The text of the unit.
    pub fn to_string(&self) -> (r: String)
        ensures
            r@ == resolution_unit_text(*self),
    {
        match self {
            ResolutionUnit::PixelsPerInch => String::from_str("inches"),
            ResolutionUnit::PixelsPerCm => String::from_str("cm"),
            ResolutionUnit::NoUnit => String::from_str("none"),
            ResolutionUnit::Unknown => String::from_str("unknown"),
        }
    }
}

} // verus!
