//! The byte order of a TIFF block.

use vstd::prelude::*;
use vstd::string::*;

verus! {

/// The mark of a block whose numbers have their most significant byte first:
/// `MM`.
pub const BIG_ENDIAN: [u8; 2] = [0x4D, 0x4D];

/// The mark of a block whose numbers have their least significant byte first:
/// `II`.
pub const LITTLE_ENDIAN: [u8; 2] = [0x49, 0x49];

/// The byte order of the numbers of a TIFF block. It is read once, from the
/// mark at the start of the block, and holds for every number in it.
#[derive(Debug, Clone, Copy, PartialEq, Eq, Structural)]
pub enum Endian {
    Big,
    Little,
}

/// The byte order that a mark stands for, where it is one of the two marks.
pub open spec fn endian_of(mark: Seq<u8>) -> Option<Endian> {
    if mark =~= seq![0x4Du8, 0x4Du8] {
        Some(Endian::Big)
    } else if mark =~= seq![0x49u8, 0x49u8] {
        Some(Endian::Little)
    } else {
        None
    }
}

impl Endian {
    /// The byte order that a mark stands for.
    pub fn from(data: [u8; 2]) -> (r: Endian)
        requires
            endian_of(data@) is Some,
        ensures
            Some(r) == endian_of(data@),
    {
        if data[0] == 0x4D {
            assert(data@ =~= seq![0x4Du8, 0x4Du8]);
            Endian::Big
        } else {
            assert(data@ =~= seq![0x49u8, 0x49u8]);
            Endian::Little
        }
    }

    /// The byte order that a mark stands for, where it is one of the two marks.
    pub fn try_from(data: &[u8]) -> (r: Option<Endian>)
        ensures
            r == endian_of(data@),
    {
        if data.len() == 2 && data[0] == 0x4D && data[1] == 0x4D {
            assert(data@ =~= seq![0x4Du8, 0x4Du8]);
            Some(Endian::Big)
        } else if data.len() == 2 && data[0] == 0x49 && data[1] == 0x49 {
            assert(data@ =~= seq![0x49u8, 0x49u8]);
            Some(Endian::Little)
        } else {
            None
        }
    }

    /// The name of the byte order.
    pub fn to_string(&self) -> (r: String)
        ensures
            r@ == match *self {
                Endian::Big => "Big Endian (Motorola, MM)"@,
                Endian::Little => "Little Endian (Intel, II)"@,
            },
    {
        match self {
            Endian::Big => String::from_str("Big Endian (Motorola, MM)"),
            Endian::Little => String::from_str("Little Endian (Intel, II)"),
        }
    }
}

} // verus!
