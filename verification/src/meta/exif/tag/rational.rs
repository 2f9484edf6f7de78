//! Rational numbers: a numerator over a denominator.

use vstd::prelude::*;
use vstd::string::*;
use crate::errors::{ExifError, ExifErrorKind, Fault};
use crate::meta::exif::endian::Endian;
use crate::meta::exif::wire::u32_at;
use crate::text::{decimal, push_decimal};

verus! {

/// A rational number of a field: eight bytes, the numerator before the
/// denominator.
#[derive(Debug, Clone, Copy, PartialEq, Eq, Structural)]
pub struct Rational {
    pub num: u32,
    pub den: u32,
}

/// The rational number that the first eight bytes hold in the given byte order.
pub open spec fn rational_of(val: Seq<u8>, endian: Endian) -> Rational
    recommends
        val.len() >= 8,
{
    Rational { num: u32_at(val, 0, endian), den: u32_at(val, 4, endian) }
}

/// The text of a rational number: the numerator alone where the denominator is
/// one, and both with a stroke between them otherwise.
pub open spec fn rational_text(r: Rational) -> Seq<char> {
    if r.den == 1 {
        decimal(r.num as nat)
    } else {
        decimal(r.num as nat) + seq!['/'] + decimal(r.den as nat)
    }
}

/// The number that four bytes hold in the given byte order.
pub fn read_u32(val: &[u8], pos: usize, endian: Endian) -> (r: u32)
    requires
        pos + 4 <= val.len(),
    ensures
        r == u32_at(val@, pos as int, endian),
{
    proof {
        let s = val@.subrange(pos as int, pos + 4);
        assert(s[0] == val@[pos as int] && s[1] == val@[pos + 1] && s[2] == val@[pos + 2] && s[3]
            == val@[pos + 3]);
    }
    let a: u32 = val[pos] as u32;
    let b: u32 = val[pos + 1] as u32;
    let c: u32 = val[pos + 2] as u32;
    let d: u32 = val[pos + 3] as u32;
    match endian {
        Endian::Big => a * 16777216 + b * 65536 + c * 256 + d,
        Endian::Little => d * 16777216 + c * 65536 + b * 256 + a,
    }
}

impl Rational {
    /// The rational number with the given numerator and denominator.
    pub fn new(num: u32, den: u32) -> (r: Self)
        ensures
            r == (Rational { num, den }),
    {
        Self { num, den }
    }

    /// The rational number that the first eight bytes of `val` hold; a failed
    /// parse where `val` is shorter.
    pub fn try_from(val: &[u8], endian: Endian) -> (r: Result<Self, ExifError>)
        ensures
            val@.len() >= 8 ==> r == Ok::<Rational, ExifError>(rational_of(val@, endian)),
            val@.len() < 8 ==> r is Err && r->Err_0@ == (Fault {
                kind: ExifErrorKind::Parse,
                data: None,
                msg: Some(": rational must be 8 bytes long"@),
                source: None,
            }),
    {
        if val.len() < 8 {
            return Err(ExifError::parse(": rational must be 8 bytes long"));
        }
        Ok(Self { num: read_u32(val, 0, endian), den: read_u32(val, 4, endian) })
    }

    /// The text of the number.
    pub fn to_string(&self) -> (r: String)
        ensures
            r@ == rational_text(*self),
    {
        let mut out = String::new();
        push_decimal(&mut out, self.num as u64);
        if self.den != 1 {
            out.push('/');
            push_decimal(&mut out, self.den as u64);
        }
        assert(out@ =~= rational_text(*self));
        out
    }
}

} // verus!
