//! The values of the tag `YCbCrPositioning`.

use vstd::prelude::*;
use vstd::string::*;

verus! {

/// Where the chroma samples lie in relation to the luma samples.
#[derive(Debug, Clone, Copy, PartialEq, Eq, Structural)]
pub enum YCbCrPositioning {
    Centered,
    CoSited,
}

/// The value that a number stands for, where it stands for one.
pub open spec fn ycbcr_positioning_of(val: int) -> Option<YCbCrPositioning> {
    if val == 1 {
        Some(YCbCrPositioning::Centered)
    } else if val == 2 {
        Some(YCbCrPositioning::CoSited)
    } else {
        None
    }
}

/// The text of a value.
pub open spec fn ycbcr_positioning_text(v: YCbCrPositioning) -> Seq<char> {
    match v {
        YCbCrPositioning::Centered => "Centered"@,
        YCbCrPositioning::CoSited => "Co-sited"@,
    }
}

impl YCbCrPositioning {
    /// The value that a number stands for; `Centered` for a number that stands
    /// for none.
    pub fn from(val: u16) -> (r: YCbCrPositioning)
        ensures
            r == match ycbcr_positioning_of(val as int) {
                Some(v) => v,
                None => YCbCrPositioning::Centered,
            },
    {
        match val {
            1 => YCbCrPositioning::Centered,
            2 => YCbCrPositioning::CoSited,
            _ => YCbCrPositioning::Centered,
        }
    }

    /// The value that a number stands for, where it stands for one.
    pub fn try_from(val: usize) -> (r: Option<YCbCrPositioning>)
        ensures
            r == ycbcr_positioning_of(val as int),
    {
        match val {
            1 => Some(YCbCrPositioning::Centered),
            2 => Some(YCbCrPositioning::CoSited),
            _ => None,
        }
    }

    /// The text of the value.
    pub fn to_string(&self) -> (r: String)
        ensures
            r@ == ycbcr_positioning_text(*self),
    {
        match self {
            YCbCrPositioning::Centered => String::from_str("Centered"),
            YCbCrPositioning::CoSited => String::from_str("Co-sited"),
        }
    }
}

} // verus!
