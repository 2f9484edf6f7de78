//! The values of the tag `Saturation`.

use vstd::prelude::*;
use vstd::string::*;

verus! {

/// How the camera changed the saturation.
#[derive(Debug, Clone, Copy, PartialEq, Eq, Structural)]
pub enum Saturation {
    Normal,
    Low,
    High,
}

/// The value that a number stands for, where it stands for one.
pub open spec fn saturation_of(val: int) -> Option<Saturation> {
    if val == 0 {
        Some(Saturation::Normal)
    } else if val == 1 {
        Some(Saturation::Low)
    } else if val == 2 {
        Some(Saturation::High)
    } else {
        None
    }
}

/// The text of a value.
pub open spec fn saturation_text(v: Saturation) -> Seq<char> {
    match v {
        Saturation::Normal => "Normal"@,
        Saturation::Low => "Low"@,
        Saturation::High => "High"@,
    }
}

impl Saturation {
    /// The value that a number stands for; `Normal` for a number that stands
    /// for none.
    pub fn from(val: u16) -> (r: Saturation)
        ensures
            r == match saturation_of(val as int) {
                Some(v) => v,
                None => Saturation::Normal,
            },
    {
        match val {
            0 => Saturation::Normal,
            1 => Saturation::Low,
            2 => Saturation::High,
            _ => Saturation::Normal,
        }
    }

    /// The value that a number stands for, where it stands for one.
    pub fn try_from(val: usize) -> (r: Option<Saturation>)
        ensures
            r == saturation_of(val as int),
    {
        match val {
            0 => Some(Saturation::Normal),
            1 => Some(Saturation::Low),
            2 => Some(Saturation::High),
            _ => None,
        }
    }

    /// The text of the value.
    pub fn to_string(&self) -> (r: String)
        ensures
            r@ == saturation_text(*self),
    {
        match self {
            Saturation::Normal => String::from_str("Normal"),
            Saturation::Low => String::from_str("Low"),
            Saturation::High => String::from_str("High"),
        }
    }
}

} // verus!
