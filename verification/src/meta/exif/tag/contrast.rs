//! The values of the tag `Contrast`.

use vstd::prelude::*;
use vstd::string::*;

verus! {

/// How the camera changed the contrast.
#[derive(Debug, Clone, Copy, PartialEq, Eq, Structural)]
pub enum Contrast {
    Normal,
    Low,
    High,
}

/// The value that a number stands for, where it stands for one.
pub open spec fn contrast_of(val: int) -> Option<Contrast> {
    if val == 0 {
        Some(Contrast::Normal)
    } else if val == 1 {
        Some(Contrast::Low)
    } else if val == 2 {
        Some(Contrast::High)
    } else {
        None
    }
}

/// The text of a value.
pub open spec fn contrast_text(v: Contrast) -> Seq<char> {
    match v {
        Contrast::Normal => "Normal"@,
        Contrast::Low => "Low"@,
        Contrast::High => "High"@,
    }
}

impl Contrast {
    /// The value that a number stands for; `Normal` for a number that stands
    /// for none.
    pub fn from(val: u16) -> (r: Contrast)
        ensures
            r == match contrast_of(val as int) {
                Some(v) => v,
                None => Contrast::Normal,
            },
    {
        match val {
            0 => Contrast::Normal,
            1 => Contrast::Low,
            2 => Contrast::High,
            _ => Contrast::Normal,
        }
    }

    /// The value that a number stands for, where it stands for one.
    pub fn try_from(val: usize) -> (r: Option<Contrast>)
        ensures
            r == contrast_of(val as int),
    {
        match val {
            0 => Some(Contrast::Normal),
            1 => Some(Contrast::Low),
            2 => Some(Contrast::High),
            _ => None,
        }
    }

    /// The text of the value.
    pub fn to_string(&self) -> (r: String)
        ensures
            r@ == contrast_text(*self),
    {
        match self {
            Contrast::Normal => String::from_str("Normal"),
            Contrast::Low => String::from_str("Low"),
            Contrast::High => String::from_str("High"),
        }
    }
}

} // verus!
