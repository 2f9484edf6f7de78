//! The values of the tag `MeteringMode`.

use vstd::prelude::*;
use vstd::string::*;

verus! {

/// How the camera measured the light.
#[derive(Debug, Clone, Copy, PartialEq, Eq, Structural)]
pub enum MeteringMode {
    Average,
    CenterWeightedAverage,
    Spot,
    MultiSpot,
    MultiSegment,
}

/// The value that a number stands for, where it stands for one.
pub open spec fn metering_mode_of(val: int) -> Option<MeteringMode> {
    if val == 1 {
        Some(MeteringMode::Average)
    } else if val == 2 {
        Some(MeteringMode::CenterWeightedAverage)
    } else if val == 3 {
        Some(MeteringMode::Spot)
    } else if val == 4 {
        Some(MeteringMode::MultiSpot)
    } else if val == 5 {
        Some(MeteringMode::MultiSegment)
    } else {
        None
    }
}

/// The text of a value.
pub open spec fn metering_mode_text(v: MeteringMode) -> Seq<char> {
    match v {
        MeteringMode::Average => "Average"@,
        MeteringMode::CenterWeightedAverage => "Center weighted average"@,
        MeteringMode::Spot => "Spot"@,
        MeteringMode::MultiSpot => "Multi-spot"@,
        MeteringMode::MultiSegment => "Multi-segment"@,
    }
}

impl MeteringMode {
    /// The value that a number stands for; `Average` for a number that stands
    /// for none.
    pub fn from(val: u16) -> (r: MeteringMode)
        ensures
            r == match metering_mode_of(val as int) {
                Some(v) => v,
                None => MeteringMode::Average,
            },
    {
        match val {
            1 => MeteringMode::Average,
            2 => MeteringMode::CenterWeightedAverage,
            3 => MeteringMode::Spot,
            4 => MeteringMode::MultiSpot,
            5 => MeteringMode::MultiSegment,
            _ => MeteringMode::Average,
        }
    }

    /// The value that a number stands for, where it stands for one.
    pub fn try_from(val: usize) -> (r: Option<MeteringMode>)
        ensures
            r == metering_mode_of(val as int),
    {
        match val {
            1 => Some(MeteringMode::Average),
            2 => Some(MeteringMode::CenterWeightedAverage),
            3 => Some(MeteringMode::Spot),
            4 => Some(MeteringMode::MultiSpot),
            5 => Some(MeteringMode::MultiSegment),
            _ => None,
        }
    }

    /// The text of the value.
    pub fn to_string(&self) -> (r: String)
        ensures
            r@ == metering_mode_text(*self),
    {
        match self {
            MeteringMode::Average => String::from_str("Average"),
            MeteringMode::CenterWeightedAverage => String::from_str("Center weighted average"),
            MeteringMode::Spot => String::from_str("Spot"),
            MeteringMode::MultiSpot => String::from_str("Multi-spot"),
            MeteringMode::MultiSegment => String::from_str("Multi-segment"),
        }
    }
}

} // verus!
