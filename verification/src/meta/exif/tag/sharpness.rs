//! The values of the tag `Sharpness`.

use vstd::prelude::*;
use vstd::string::*;

verus! {

/// How the camera changed the sharpness.
#[derive(Debug, Clone, Copy, PartialEq, Eq, Structural)]
pub enum Sharpness {
    Normal,
    Soft,
    Hard,
}

/// The value that a number stands for, where it stands for one.
pub open spec fn sharpness_of(val: int) -> Option<Sharpness> {
    if val == 0 {
        Some(Sharpness::Normal)
    } else if val == 1 {
        Some(Sharpness::Soft)
    } else if val == 2 {
        Some(Sharpness::Hard)
    } else {
        None
    }
}

/// The text of a value.
pub open spec fn sharpness_text(v: Sharpness) -> Seq<char> {
    match v {
        Sharpness::Normal => "Normal"@,
        Sharpness::Soft => "Soft"@,
        Sharpness::Hard => "Hard"@,
    }
}

impl Sharpness {
    /// The value that a number stands for; `Normal` for a number that stands
    /// for none.
    pub fn from(val: u16) -> (r: Sharpness)
        ensures
            r == match sharpness_of(val as int) {
                Some(v) => v,
                None => Sharpness::Normal,
            },
    {
        match val {
            0 => Sharpness::Normal,
            1 => Sharpness::Soft,
            2 => Sharpness::Hard,
            _ => Sharpness::Normal,
        }
    }

    /// The value that a number stands for, where it stands for one.
    pub fn try_from(val: usize) -> (r: Option<Sharpness>)
        ensures
            r == sharpness_of(val as int),
    {
        match val {
            0 => Some(Sharpness::Normal),
            1 => Some(Sharpness::Soft),
            2 => Some(Sharpness::Hard),
            _ => None,
        }
    }

    /// The text of the value.
    pub fn to_string(&self) -> (r: String)
        ensures
            r@ == sharpness_text(*self),
    {
        match self {
            Sharpness::Normal => String::from_str("Normal"),
            Sharpness::Soft => String::from_str("Soft"),
            Sharpness::Hard => String::from_str("Hard"),
        }
    }
}

} // verus!
