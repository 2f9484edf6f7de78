//! The values that the data of a field stands for: text, unsigned and signed
//! numbers, and rational numbers.

use vstd::prelude::*;
use vstd::slice::slice_subrange;
use vstd::string::*;
use crate::errors::{ExifError, ExifErrorKind, Fault};
use crate::meta::exif::endian::Endian;
use crate::meta::exif::field::{FieldView, IfdField};
use crate::meta::exif::format::{
    SIGNED_BYTE, SIGNED_LONG, SIGNED_RATIONAL, SIGNED_SHORT, UNSIGNED_BYTE, UNSIGNED_LONG,
    UNSIGNED_RATIONAL, UNSIGNED_SHORT,
};
use crate::meta::exif::tag::rational::{rational_of, read_u32, Rational};
use crate::meta::exif::wire::{u16_at, u32_at, wrong_of, ExifResult};

verus! {

/// The text that bytes hold: the characters of the bytes before the first
/// zero byte.
pub open spec fn ascii_of(data: Seq<u8>) -> Seq<char>
    decreases data.len(),
{
    if data.len() == 0 || data[0] == 0 {
        Seq::empty()
    } else {
        seq![data[0] as char] + ascii_of(data.skip(1))
    }
}

/// The unsigned number that the data of a field starts with, where its format
/// is that of a byte, a short or a long number and the data holds one.
pub open spec fn unsigned_of(f: FieldView) -> Option<usize> {
    match f.data {
        Some(d) => if f.format == UNSIGNED_BYTE && d.len() >= 1 {
            Some(d[0] as usize)
        } else if f.format == UNSIGNED_SHORT && d.len() >= 2 {
            Some(u16_at(d, 0, f.endian) as usize)
        } else if f.format == UNSIGNED_LONG && d.len() >= 4 {
            Some(u32_at(d, 0, f.endian) as usize)
        } else {
            None
        },
        None => None,
    }
}

/// The number that the data of a field starts with, where its format is that
/// of a signed byte, short or long number and the data holds one. The bytes
/// are read as an unsigned number; there is none where `isize` cannot hold it.
pub open spec fn signed_of(f: FieldView) -> Option<isize> {
    match f.data {
        Some(d) => if f.format == SIGNED_BYTE && d.len() >= 1 {
            Some(d[0] as isize)
        } else if f.format == SIGNED_SHORT && d.len() >= 2 {
            Some(u16_at(d, 0, f.endian) as isize)
        } else if f.format == SIGNED_LONG && d.len() >= 4 && u32_at(d, 0, f.endian)
            <= isize::MAX {
            Some(u32_at(d, 0, f.endian) as isize)
        } else {
            None
        },
        None => None,
    }
}

/// The rational numbers that data holds: one for each eight bytes.
pub open spec fn rationals_of(data: Seq<u8>, endian: Endian) -> Seq<Rational> {
    Seq::new((data.len() / 8) as nat, |i: int| rational_of(data.subrange(8 * i, 8 * i + 8), endian))
}

/// The rational numbers of a field, or the error that it holds no data or
/// that its data does not end with a whole number.
pub open spec fn field_rationals(f: FieldView) -> Result<Seq<Rational>, Fault<ExifErrorKind>> {
    match f.data {
        Some(d) => if d.len() % 8 == 0 {
            Ok(rationals_of(d, f.endian))
        } else {
            Err(wrong_of(": rational must be 8 bytes long"@))
        },
        None => Err(wrong_of(": no data to convert to rational"@)),
    }
}

/// The first rational number of a field, where its format is that of rational
/// numbers and the data holds one.
pub open spec fn first_rational(f: FieldView) -> Option<(u32, u32)> {
    match f.data {
        Some(d) => if (f.format == UNSIGNED_RATIONAL || f.format == SIGNED_RATIONAL)
            && d.len() >= 8 {
            Some((u32_at(d, 0, f.endian), u32_at(d, 4, f.endian)))
        } else {
            None
        },
        None => None,
    }
}

/// The number that two bytes hold in the given byte order.
pub fn read_u16(val: &[u8], pos: usize, endian: Endian) -> (r: u16)
    requires
        pos + 2 <= val.len(),
    ensures
        r == u16_at(val@, pos as int, endian),
{
    proof {
        let s = val@.subrange(pos as int, pos + 2);
        assert(s[0] == val@[pos as int] && s[1] == val@[pos + 1]);
    }
    let a: u16 = val[pos] as u16;
    let b: u16 = val[pos + 1] as u16;
    match endian {
        Endian::Big => a * 256 + b,
        Endian::Little => b * 256 + a,
    }
}

/// The text that bytes hold: the characters of the bytes before the first
/// zero byte.
pub fn ascii(data: &[u8]) -> (r: String)
    ensures
        r@ == ascii_of(data@),
{
    let mut out = String::new();
    let mut i: usize = 0;
    proof {
        assert(data@.skip(0) =~= data@);
        assert(out@ + ascii_of(data@) =~= ascii_of(data@));
    }
    while i < data.len() && data[i] != 0
        invariant
            i <= data.len(),
            out@ + ascii_of(data@.skip(i as int)) == ascii_of(data@),
        decreases data.len() - i,
    {
        let ghost before = out@;
        out.push(data[i] as char);
        proof {
            let rest = data@.skip(i as int);
            assert(rest[0] == data@[i as int]);
            assert(rest.skip(1) =~= data@.skip(i + 1));
            assert(out@ + ascii_of(data@.skip(i + 1)) =~= before + ascii_of(rest));
        }
        i = i + 1;
    }
    proof {
        let rest = data@.skip(i as int);
        if i < data.len() {
            assert(rest[0] == data@[i as int]);
        }
        assert(ascii_of(rest) =~= Seq::<char>::empty());
        assert(out@ =~= ascii_of(data@));
    }
    out
}

impl IfdField {
    /// The text that the data holds: the characters before the first zero
    /// byte. There is none where the field has no data.
    pub fn to_ascii(&self) -> (r: Option<String>)
        ensures
            match self@.data {
                Some(d) => r is Some && r->Some_0@ == ascii_of(d),
                None => r is None,
            },
    {
        match &self.data {
            Some(data) => Some(ascii(data.as_slice())),
            None => None,
        }
    }

    /// The rational numbers that the data holds, one for each eight bytes.
    pub fn to_rationals(&self) -> (r: ExifResult<Vec<Rational>>)
        ensures
            match field_rationals(self@) {
                Ok(all) => r is Ok && r->Ok_0@ == all,
                Err(fault) => r is Err && r->Err_0@ == fault,
            },
    {
        match &self.data {
            Some(data) => {
                let mut rationals: Vec<Rational> = Vec::new();
                let mut i: usize = 0;
                while i < data.len()
                    invariant
                        i <= data.len(),
                        i % 8 == 0,
                        self@.data == Some(data@),
                        rationals@.len() == i / 8,
                        forall|k: int|
                            0 <= k < rationals@.len() ==> rationals@[k] == rational_of(
                                data@.subrange(8 * k, 8 * k + 8),
                                self.endian,
                            ),
                    decreases data.len() - i,
                {
                    if data.len() - i < 8 {
                        assert(data@.len() % 8 != 0) by (nonlinear_arith)
                            requires
                                i % 8 == 0,
                                0 < data@.len() - i < 8,
                        ;
                        return Err(ExifError::parse(": rational must be 8 bytes long"));
                    }
                    let chunk = slice_subrange(data.as_slice(), i, i + 8);
                    let rational = match Rational::try_from(chunk, self.endian) {
                        Ok(rational) => rational,
                        Err(e) => {
                            return Err(e);
                        },
                    };
                    rationals.push(rational);
                    i = i + 8;
                }
                proof {
                    assert(rationals@ =~= rationals_of(data@, self.endian));
                }
                Ok(rationals)
            },
            None => Err(ExifError::parse(": no data to convert to rational")),
        }
    }

    /// The numerator and the denominator of the first rational number of the
    /// data, where the format is that of rational numbers.
    pub fn to_rational(&self) -> (r: Option<(u32, u32)>)
        ensures
            r == first_rational(self@),
    {
        match &self.data {
            Some(data) => {
                if (self.format == UNSIGNED_RATIONAL || self.format
                    == SIGNED_RATIONAL) && data.len() >= 8 {
                    Some(
                        (
                            read_u32(data.as_slice(), 0, self.endian),
                            read_u32(data.as_slice(), 4, self.endian),
                        ),
                    )
                } else {
                    None
                }
            },
            None => None,
        }
    }

    /// The number that the data starts with, for the formats of signed
    /// numbers.
    pub fn to_signed(&self) -> (r: Option<isize>)
        ensures
            r == signed_of(self@),
    {
        match &self.data {
            Some(data) => {
                if self.format == SIGNED_BYTE && data.len() >= 1 {
                    Some(data[0] as isize)
                } else if self.format == SIGNED_SHORT && data.len() >= 2 {
                    Some(read_u16(data.as_slice(), 0, self.endian) as isize)
                } else if self.format == SIGNED_LONG && data.len() >= 4 {
                    let value = read_u32(data.as_slice(), 0, self.endian);
                    if value as u64 <= isize::MAX as u64 {
                        Some(value as isize)
                    } else {
                        None
                    }
                } else {
                    None
                }
            },
            None => None,
        }
    }

    /// The number that the data starts with, for the formats of unsigned
    /// numbers.
    pub fn to_unsigned(&self) -> (r: Option<usize>)
        ensures
            r == unsigned_of(self@),
    {
        match &self.data {
            Some(data) => {
                if self.format == UNSIGNED_BYTE && data.len() >= 1 {
                    Some(data[0] as usize)
                } else if self.format == UNSIGNED_SHORT && data.len() >= 2 {
                    Some(read_u16(data.as_slice(), 0, self.endian) as usize)
                } else if self.format == UNSIGNED_LONG && data.len() >= 4 {
                    Some(read_u32(data.as_slice(), 0, self.endian) as usize)
                } else {
                    None
                }
            },
            None => None,
        }
    }
}

} // verus!
