//! The values of the tag `Orientation`.

use vstd::prelude::*;
use vstd::string::*;

verus! {

/// How the image is turned or mirrored.
#[derive(Debug, Clone, Copy, PartialEq, Eq, Structural)]
pub enum Orientation {
    Horizontal,
    MirrorHorizontal,
    Rotate180,
    MirrorVertical,
    MirrorHorizontalAndRotate270CW,
    Rotate90CW,
    MirrorHorizontalAndRotate90CW,
    Rotate270CW,
}

/// The value that a number stands for, where it stands for one.
pub open spec fn orientation_of(val: int) -> Option<Orientation> {
    if val == 1 {
        Some(Orientation::Horizontal)
    } else if val == 2 {
        Some(Orientation::MirrorHorizontal)
    } else if val == 3 {
        Some(Orientation::Rotate180)
    } else if val == 4 {
        Some(Orientation::MirrorVertical)
    } else if val == 5 {
        Some(Orientation::MirrorHorizontalAndRotate270CW)
    } else if val == 6 {
        Some(Orientation::Rotate90CW)
    } else if val == 7 {
        Some(Orientation::MirrorHorizontalAndRotate90CW)
    } else if val == 8 {
        Some(Orientation::Rotate270CW)
    } else {
        None
    }
}

/// The text of a value.
pub open spec fn orientation_text(v: Orientation) -> Seq<char> {
    match v {
        Orientation::Horizontal => "Horizontal"@,
        Orientation::MirrorHorizontal => "Mirror Horizontal"@,
        Orientation::Rotate180 => "Rotate 180"@,
        Orientation::MirrorVertical => "Mirror Vertical"@,
        Orientation::MirrorHorizontalAndRotate270CW => "Mirror Horizontal and Rotate 270 CW"@,
        Orientation::Rotate90CW => "Rotate 90 CW"@,
        Orientation::MirrorHorizontalAndRotate90CW => "Mirror Horizontal and Rotate 90 CW"@,
        Orientation::Rotate270CW => "Rotate 270 CW"@,
    }
}

impl Orientation {
    /// The value that a number stands for; `Horizontal` for a number that stands
    /// for none.
    pub fn from(val: u16) -> (r: Orientation)
        ensures
            r == match orientation_of(val as int) {
                Some(v) => v,
                None => Orientation::Horizontal,
            },
    {
        match val {
            1 => Orientation::Horizontal,
            2 => Orientation::MirrorHorizontal,
            3 => Orientation::Rotate180,
            4 => Orientation::MirrorVertical,
            5 => Orientation::MirrorHorizontalAndRotate270CW,
            6 => Orientation::Rotate90CW,
            7 => Orientation::MirrorHorizontalAndRotate90CW,
            8 => Orientation::Rotate270CW,
            _ => Orientation::Horizontal,
        }
    }

    /// The value that a number stands for, where it stands for one.
    pub fn try_from(val: usize) -> (r: Option<Orientation>)
        ensures
            r == orientation_of(val as int),
    {
        match val {
            1 => Some(Orientation::Horizontal),
            2 => Some(Orientation::MirrorHorizontal),
            3 => Some(Orientation::Rotate180),
            4 => Some(Orientation::MirrorVertical),
            5 => Some(Orientation::MirrorHorizontalAndRotate270CW),
            6 => Some(Orientation::Rotate90CW),
            7 => Some(Orientation::MirrorHorizontalAndRotate90CW),
            8 => Some(Orientation::Rotate270CW),
            _ => None,
        }
    }

    /// The text of the value.
    pub fn to_string(&self) -> (r: String)
        ensures
            r@ == orientation_text(*self),
    {
        match self {
            Orientation::Horizontal => String::from_str("Horizontal"),
            Orientation::MirrorHorizontal => String::from_str("Mirror Horizontal"),
            Orientation::Rotate180 => String::from_str("Rotate 180"),
            Orientation::MirrorVertical => String::from_str("Mirror Vertical"),
            Orientation::MirrorHorizontalAndRotate270CW => String::from_str("Mirror Horizontal and Rotate 270 CW"),
            Orientation::Rotate90CW => String::from_str("Rotate 90 CW"),
            Orientation::MirrorHorizontalAndRotate90CW => String::from_str("Mirror Horizontal and Rotate 90 CW"),
            Orientation::Rotate270CW => String::from_str("Rotate 270 CW"),
        }
    }
}

} // verus!
