//! The values of the tag `Gain`.

use vstd::prelude::*;
use vstd::string::*;

verus! {

/// How the camera changed the gain.
#[derive(Debug, Clone, Copy, PartialEq, Eq, Structural)]
pub enum Gain {
    NoGain,
    LowGainUp,
    HighGainUp,
    LowGainDown,
    HighGainDown,
}

/// The value that a number stands for, where it stands for one.
pub open spec fn gain_of(val: int) -> Option<Gain> {
    if val == 0 {
        Some(Gain::NoGain)
    } else if val == 1 {
        Some(Gain::LowGainUp)
    } else if val == 2 {
        Some(Gain::HighGainUp)
    } else if val == 3 {
        Some(Gain::LowGainDown)
    } else if val == 4 {
        Some(Gain::HighGainDown)
    } else {
        None
    }
}

/// The text of a value.
pub open spec fn gain_text(v: Gain) -> Seq<char> {
    match v {
        Gain::NoGain => "None"@,
        Gain::LowGainUp => "Low gain up"@,
        Gain::HighGainUp => "High gain up"@,
        Gain::LowGainDown => "Low gain down"@,
        Gain::HighGainDown => "High gain down"@,
    }
}

impl Gain {
    /// The value that a number stands for; `HighGainDown` for a number that stands
    /// for none.
    pub fn from(val: u16) -> (r: Gain)
        ensures
            r == match gain_of(val as int) {
                Some(v) => v,
                None => Gain::HighGainDown,
            },
    {
        match val {
            0 => Gain::NoGain,
            1 => Gain::LowGainUp,
            2 => Gain::HighGainUp,
            3 => Gain::LowGainDown,
            4 => Gain::HighGainDown,
            _ => Gain::HighGainDown,
        }
    }

    /// The value that a number stands for, where it stands for one.
    pub fn try_from(val: usize) -> (r: Option<Gain>)
        ensures
            r == gain_of(val as int),
    {
        match val {
            0 => Some(Gain::NoGain),
            1 => Some(Gain::LowGainUp),
            2 => Some(Gain::HighGainUp),
            3 => Some(Gain::LowGainDown),
            4 => Some(Gain::HighGainDown),
            _ => None,
        }
    }

    /// The text of the value.
    pub fn to_string(&self) -> (r: String)
        ensures
            r@ == gain_text(*self),
    {
        match self {
            Gain::NoGain => String::from_str("None"),
            Gain::LowGainUp => String::from_str("Low gain up"),
            Gain::HighGainUp => String::from_str("High gain up"),
            Gain::LowGainDown => String::from_str("Low gain down"),
            Gain::HighGainDown => String::from_str("High gain down"),
        }
    }
}

} // verus!
