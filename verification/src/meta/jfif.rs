//! JFIF headers: the payload of the first application segment of a JPEG
//! stream.
//!
//! The payload has a fixed layout: the identifier `JFIF` and a zero byte, the
//! version in two bytes, the unit of the density in one byte, the horizontal
//! and the vertical density in two bytes each with the most significant byte
//! first, and the width and height of a thumbnail in one byte each.

use vstd::prelude::*;
use vstd::string::*;
use crate::combinators::{agrees, be_u16, be_u16_of, nom_display, tag, u8 as byte};
use crate::errors::{Fault, JfifError, JfifErrorKind};

verus! {

/// The first four bytes of a JFIF header: `JFIF`. A zero byte follows them.
pub const JFIF_IDENTIFIER: [u8; 4] = [0x4A, 0x46, 0x49, 0x46];

/// The unit in which the density of a JFIF header is given.
#[derive(Debug, Clone, Copy, PartialEq, Eq, Structural)]
pub enum DensityUnit {
    PixelsPerInch,
    PixelsPerCm,
    NoUnit,
    Unknown,
}

/// The unit that a number stands for; `Unknown` for a number that stands for
/// none.
pub open spec fn density_unit_of(value: u8) -> DensityUnit {
    if value == 0 {
        DensityUnit::NoUnit
    } else if value == 1 {
        DensityUnit::PixelsPerInch
    } else if value == 2 {
        DensityUnit::PixelsPerCm
    } else {
        DensityUnit::Unknown
    }
}

impl DensityUnit {
    /// The unit that a number stands for.
    pub fn from(value: u8) -> (r: DensityUnit)
        ensures
            r == density_unit_of(value),
    {
        match value {
            0x00 => DensityUnit::NoUnit,
            0x01 => DensityUnit::PixelsPerInch,
            0x02 => DensityUnit::PixelsPerCm,
            _ => DensityUnit::Unknown,
        }
    }

    /// The name of the unit.
    pub fn to_string(&self) -> (r: String)
        ensures
            r@ == match *self {
                DensityUnit::PixelsPerInch => "inch"@,
                DensityUnit::PixelsPerCm => "cm"@,
                DensityUnit::NoUnit => "none"@,
                DensityUnit::Unknown => "unknown"@,
            },
    {
        match self {
            DensityUnit::PixelsPerInch => String::from_str("inch"),
            DensityUnit::PixelsPerCm => String::from_str("cm"),
            DensityUnit::NoUnit => String::from_str("none"),
            DensityUnit::Unknown => String::from_str("unknown"),
        }
    }
}

/// The metadata of a JFIF header.
#[derive(Debug, Clone)]
pub struct Jfif {
    pub major: u8,
    pub minor: u8,
    pub density: DensityUnit,
    pub x_density: u16,
    pub y_density: u16,
    pub x_dimension: u8,
    pub y_dimension: u8,
    pub thumbnail: Option<Vec<u8>>,
}

/// What a JFIF header holds, as values of mathematics.
pub struct JfifView {
    pub major: u8,
    pub minor: u8,
    pub density: DensityUnit,
    pub x_density: u16,
    pub y_density: u16,
    pub x_dimension: u8,
    pub y_dimension: u8,
    pub thumbnail: Option<Seq<u8>>,
}

impl View for Jfif {
    type V = JfifView;

    open spec fn view(&self) -> JfifView {
        JfifView {
            major: self.major,
            minor: self.minor,
            density: self.density,
            x_density: self.x_density,
            y_density: self.y_density,
            x_dimension: self.x_dimension,
            y_dimension: self.y_dimension,
            thumbnail: match self.thumbnail {
                Some(t) => Some(t@),
                None => None,
            },
        }
    }
}

/// The error of a read that the input is too short for: `missing` bytes more
/// were needed. It has the kind `Truncated`, and its source is what `nom`
/// prints for an incomplete input.
pub open spec fn jfif_short(msg: Seq<char>, missing: int) -> Fault<JfifErrorKind> {
    Fault {
        kind: JfifErrorKind::Truncated,
        data: None,
        msg: Some(msg),
        source: Some(seq!["nom::"@ + nom_display(Some(missing as usize), Seq::empty())]),
    }
}

/// The error of a value that the format does not allow, with the bytes that
/// hold it. It has the kind `Parse` and no source.
pub open spec fn jfif_wrong(msg: Seq<char>, data: Seq<u8>) -> Fault<JfifErrorKind> {
    Fault { kind: JfifErrorKind::Parse, data: Some(data), msg: Some(msg), source: None }
}

/// The error of a read that asks for the bytes of `pattern` at the start of
/// `input`, where there is one: a mismatch where a byte differs, and a short
/// input where the input is a proper start of the pattern.
pub open spec fn jfif_tag_fault(input: Seq<u8>, pattern: Seq<u8>, msg: Seq<char>) -> Option<
    Fault<JfifErrorKind>,
> {
    if !agrees(input, pattern) {
        Some(
            Fault {
                kind: JfifErrorKind::Parse,
                data: None,
                msg: Some(msg),
                source: Some(seq!["nom::"@ + nom_display(None, input)]),
            },
        )
    } else if input.len() < pattern.len() {
        Some(jfif_short(msg, pattern.len() - input.len()))
    } else {
        None
    }
}

/// The error of a header that does not start with `JFIF` and a zero byte,
/// where there is one.
pub open spec fn header_fault(input: Seq<u8>) -> Option<Fault<JfifErrorKind>> {
    match jfif_tag_fault(input, seq![0x4Au8, 0x46u8, 0x49u8, 0x46u8], ": identifier invalid"@) {
        Some(fault) => Some(fault),
        None => jfif_tag_fault(input.skip(4), seq![0u8], ": identifier invalid"@),
    }
}

/// The unit and the two densities that five bytes hold, or the error of an
/// input that is shorter or that holds a unit that is not known.
pub open spec fn density_of(input: Seq<u8>) -> Result<
    (DensityUnit, u16, u16),
    Fault<JfifErrorKind>,
> {
    if input.len() < 1 {
        Err(jfif_short(": density units invalid"@, 1))
    } else if input.len() < 3 {
        Err(jfif_short(": density units invalid"@, 3 - input.len()))
    } else if input.len() < 5 {
        Err(jfif_short(": density units invalid"@, 5 - input.len()))
    } else if density_unit_of(input[0]) == DensityUnit::Unknown {
        Err(jfif_wrong(": density units unknown"@, seq![input[0]]))
    } else {
        Ok(
            (
                density_unit_of(input[0]),
                be_u16_of(input.subrange(1, 3)),
                be_u16_of(input.subrange(3, 5)),
            ),
        )
    }
}

/// The JFIF header that the payload `input` holds, or the first error that
/// reading it gives. A header that gives the size of a thumbnail is an error:
/// the error holds what follows the size.
pub open spec fn jfif_of(input: Seq<u8>) -> Result<JfifView, Fault<JfifErrorKind>> {
    match header_fault(input) {
        Some(fault) => Err(fault),
        None => if input.len() < 7 {
            Err(jfif_short(": version invalid"@, 1))
        } else {
            match density_of(input.skip(7)) {
                Err(fault) => Err(fault),
                Ok((density, x_density, y_density)) => if input.len() < 14 {
                    Err(jfif_short(": thumbnail dimensions invalid"@, 1))
                } else if input[12] != 0 && input[13] != 0 {
                    Err(jfif_wrong(": thumbnail invalid"@, input.skip(14)))
                } else {
                    Ok(
                        JfifView {
                            major: input[5],
                            minor: input[6],
                            density,
                            x_density,
                            y_density,
                            x_dimension: input[12],
                            y_dimension: input[13],
                            thumbnail: None,
                        },
                    )
                },
            }
        },
    }
}

/// Reads the bytes of `pattern` from the start of the input.
fn parse_tag<'a>(input: &'a [u8], pattern: &[u8], msg: &str) -> (r: Result<&'a [u8], JfifError>)
    ensures
        match jfif_tag_fault(input@, pattern@, msg@) {
            None => r is Ok && r->Ok_0@ == input@.skip(pattern@.len() as int),
            Some(fault) => r is Err && r->Err_0@ == fault,
        },
{
    proof {
        assert(pattern@.len() == pattern.len());
    }
    match tag(input, pattern) {
        Ok((rest, _)) => Ok(rest),
        Err(e) => Err(JfifError::parse(msg).with_nom_source(e)),
    }
}

/// Reads one byte.
fn parse_byte<'a>(input: &'a [u8], msg: &str) -> (r: Result<(&'a [u8], u8), JfifError>)
    ensures
        input@.len() >= 1 ==> r is Ok && r->Ok_0.0@ == input@.skip(1) && r->Ok_0.1 == input@[0],
        input@.len() < 1 ==> r is Err && r->Err_0@ == jfif_short(msg@, 1),
{
    match byte(input) {
        Ok(found) => Ok(found),
        Err(e) => Err(JfifError::parse(msg).with_nom_source(e)),
    }
}

/// Reads a number of two bytes, the most significant first.
fn parse_short<'a>(input: &'a [u8], msg: &str) -> (r: Result<(&'a [u8], u16), JfifError>)
    ensures
        input@.len() >= 2 ==> r is Ok && r->Ok_0.0@ == input@.skip(2) && r->Ok_0.1 == be_u16_of(
            input@,
        ),
        input@.len() < 2 ==> r is Err && r->Err_0@ == jfif_short(msg@, 2 - input@.len()),
{
    match be_u16(input) {
        Ok(found) => Ok(found),
        Err(e) => Err(JfifError::parse(msg).with_nom_source(e)),
    }
}

/// Reads the identifier of a JFIF header: `JFIF` and a zero byte. Returns
/// what follows them, and the four bytes of the name.
pub fn parse_header<'a>(input: &'a [u8]) -> (r: Result<(&'a [u8], [u8; 4]), JfifError>)
    ensures
        match header_fault(input@) {
            Some(fault) => r is Err && r->Err_0@ == fault,
            None => r is Ok && r->Ok_0.0@ == input@.skip(5) && r->Ok_0.1@ == seq![
                0x4Au8,
                0x46u8,
                0x49u8,
                0x46u8,
            ],
        },
{
    let name: [u8; 4] = [0x4A, 0x46, 0x49, 0x46];
    let zero: [u8; 1] = [0x00];
    proof {
        assert(name@ =~= seq![0x4Au8, 0x46u8, 0x49u8, 0x46u8]);
        assert(zero@ =~= seq![0u8]);
    }
    let after_name = match parse_tag(input, name.as_slice(), ": identifier invalid") {
        Ok(rest) => rest,
        Err(e) => {
            return Err(e);
        },
    };
    let remain = match parse_tag(after_name, zero.as_slice(), ": identifier invalid") {
        Ok(rest) => rest,
        Err(e) => {
            return Err(e);
        },
    };
    proof {
        assert(remain@ =~= input@.skip(5));
    }
    Ok((remain, name))
}

/// Reads the version of a JFIF header: two bytes.
pub fn parse_version<'a>(input: &'a [u8]) -> (r: Result<(&'a [u8], u8, u8), JfifError>)
    ensures
        input@.len() >= 2 ==> r is Ok && r->Ok_0.0@ == input@.skip(2) && r->Ok_0.1 == input@[0]
            && r->Ok_0.2 == input@[1],
        input@.len() < 2 ==> r is Err && r->Err_0@ == jfif_short(": version invalid"@, 1),
{
    let (after_major, major) = match parse_byte(input, ": version invalid") {
        Ok(found) => found,
        Err(e) => {
            return Err(e);
        },
    };
    let (remain, minor) = match parse_byte(after_major, ": version invalid") {
        Ok(found) => found,
        Err(e) => {
            return Err(e);
        },
    };
    proof {
        assert(remain@ =~= input@.skip(2));
    }
    Ok((remain, major, minor))
}

/// Reads the unit of the density and the two densities: five bytes.
pub fn parse_density<'a>(input: &'a [u8]) -> (r: Result<
    (&'a [u8], DensityUnit, u16, u16),
    JfifError,
>)
    ensures
        match density_of(input@) {
            Ok((density, x_density, y_density)) => r is Ok && r->Ok_0.0@ == input@.skip(5)
                && r->Ok_0.1 == density && r->Ok_0.2 == x_density && r->Ok_0.3 == y_density,
            Err(fault) => r is Err && r->Err_0@ == fault,
        },
{
    let (after_unit, unit) = match parse_byte(input, ": density units invalid") {
        Ok(found) => found,
        Err(e) => {
            return Err(e);
        },
    };
    let (after_x, x_density) = match parse_short(after_unit, ": density units invalid") {
        Ok(found) => found,
        Err(e) => {
            return Err(e);
        },
    };
    let (remain, y_density) = match parse_short(after_x, ": density units invalid") {
        Ok(found) => found,
        Err(e) => {
            return Err(e);
        },
    };
    proof {
        assert(remain@ =~= input@.skip(5));
        assert(after_unit@.subrange(0, 2) =~= input@.subrange(1, 3));
        assert(after_x@.subrange(0, 2) =~= input@.subrange(3, 5));
        assert(be_u16_of(after_unit@) == be_u16_of(input@.subrange(1, 3)));
        assert(be_u16_of(after_x@) == be_u16_of(input@.subrange(3, 5)));
    }
    let density = DensityUnit::from(unit);
    match density {
        DensityUnit::Unknown => {
            let data: [u8; 1] = [unit];
            proof {
                assert(data@ =~= seq![input@[0]]);
            }
            return Err(JfifError::parse(": density units unknown").with_data(data.as_slice()));
        },
        _ => {},
    }
    Ok((remain, density, x_density, y_density))
}

/// Reads the width and the height of the thumbnail: two bytes.
pub fn parse_thumbnail_dimensions<'a>(input: &'a [u8]) -> (r: Result<
    (&'a [u8], u8, u8),
    JfifError,
>)
    ensures
        input@.len() >= 2 ==> r is Ok && r->Ok_0.0@ == input@.skip(2) && r->Ok_0.1 == input@[0]
            && r->Ok_0.2 == input@[1],
        input@.len() < 2 ==> r is Err && r->Err_0@ == jfif_short(
            ": thumbnail dimensions invalid"@,
            1,
        ),
{
    let (after_x, x) = match parse_byte(input, ": thumbnail dimensions invalid") {
        Ok(found) => found,
        Err(e) => {
            return Err(e);
        },
    };
    let (remain, y) = match parse_byte(after_x, ": thumbnail dimensions invalid") {
        Ok(found) => found,
        Err(e) => {
            return Err(e);
        },
    };
    proof {
        assert(remain@ =~= input@.skip(2));
    }
    Ok((remain, x, y))
}

impl Jfif {
    /// Decodes the payload of a JFIF segment.
    pub fn parse(input: &[u8]) -> (r: Result<Jfif, JfifError>)
        ensures
            match jfif_of(input@) {
                Ok(jfif) => r is Ok && r->Ok_0@ == jfif,
                Err(fault) => r is Err && r->Err_0@ == fault,
            },
    {
        let (remain, _) = match parse_header(input) {
            Ok(found) => found,
            Err(e) => {
                return Err(e);
            },
        };
        let (remain, major, minor) = match parse_version(remain) {
            Ok(found) => found,
            Err(e) => {
                return Err(e);
            },
        };
        proof {
            assert(remain@ =~= input@.skip(7));
        }
        let (remain, density, x_density, y_density) = match parse_density(remain) {
            Ok(found) => found,
            Err(e) => {
                return Err(e);
            },
        };
        proof {
            assert(remain@ =~= input@.skip(12));
        }
        let (remain, x_dimension, y_dimension) = match parse_thumbnail_dimensions(remain) {
            Ok(found) => found,
            Err(e) => {
                return Err(e);
            },
        };
        proof {
            assert(remain@ =~= input@.skip(14));
        }
        if x_dimension != 0 && y_dimension != 0 {
            return Err(JfifError::parse(": thumbnail invalid").with_data(remain));
        }
        Ok(
            Self {
                major,
                minor,
                density,
                x_density,
                y_density,
                x_dimension,
                y_dimension,
                thumbnail: None,
            },
        )
    }
}

/// Whether an outcome is final: anything but an error of the kind
/// `Truncated`.
pub open spec fn settled(r: Result<JfifView, Fault<JfifErrorKind>>) -> bool {
    match r {
        Ok(_) => true,
        Err(fault) => fault.kind != JfifErrorKind::Truncated,
    }
}

/// Whether two outcomes say the same: the same header, or errors of the same
/// kind with the same message.
pub open spec fn same_verdict(
    a: Result<JfifView, Fault<JfifErrorKind>>,
    b: Result<JfifView, Fault<JfifErrorKind>>,
) -> bool {
    match (a, b) {
        (Ok(x), Ok(y)) => x == y,
        (Err(f), Err(g)) => f.kind == g.kind && f.msg == g.msg,
        _ => false,
    }
}

/// A read of fixed bytes that finds them finds them in a longer input, and
/// one that finds other bytes finds other bytes in a longer input.
pub proof fn tag_settles(input: Seq<u8>, more: Seq<u8>, pattern: Seq<u8>, msg: Seq<char>)
    requires
        match jfif_tag_fault(input, pattern, msg) {
            None => true,
            Some(fault) => fault.kind != JfifErrorKind::Truncated,
        },
    ensures
        match jfif_tag_fault(input, pattern, msg) {
            None => jfif_tag_fault(input + more, pattern, msg) is None,
            Some(fault) => jfif_tag_fault(input + more, pattern, msg) is Some && jfif_tag_fault(
                input + more,
                pattern,
                msg,
            )->Some_0.kind == fault.kind && jfif_tag_fault(input + more, pattern, msg)->Some_0.msg
                == fault.msg,
        },
{
    let longer = input + more;
    if agrees(input, pattern) {
        assert forall|i: int| 0 <= i < longer.len() && i < pattern.len() implies longer[i]
            == pattern[i] by {
            assert(longer[i] == input[i]);
        }
    } else {
        if agrees(longer, pattern) {
            assert forall|i: int| 0 <= i < input.len() && i < pattern.len() implies input[i]
                == pattern[i] by {
                assert(longer[i] == input[i]);
            }
        }
    }
}

/// The outcome of a JFIF header that is final, a decoded header or an error
/// of another kind than `Truncated`, stays the same whatever follows the
/// payload. So a payload that is cut short is never reported as wrong, and a
/// wrong payload is never reported as cut short.
pub proof fn jfif_settles(p: Seq<u8>, more: Seq<u8>)
    requires
        settled(jfif_of(p)),
    ensures
        same_verdict(jfif_of(p), jfif_of(p + more)),
{
    let longer = p + more;
    let name = seq![0x4Au8, 0x46u8, 0x49u8, 0x46u8];
    let msg = ": identifier invalid"@;
    tag_settles(p, more, name, msg);
    if jfif_tag_fault(p, name, msg) is None {
        assert(longer.skip(4) =~= p.skip(4) + more);
        tag_settles(p.skip(4), more, seq![0u8], msg);
        if jfif_tag_fault(p.skip(4), seq![0u8], msg) is None {
            if p.len() >= 7 {
                let d = p.skip(7);
                let e = longer.skip(7);
                if d.len() >= 5 {
                    assert(e[0] == d[0]);
                    assert(e.subrange(1, 3) =~= d.subrange(1, 3));
                    assert(e.subrange(3, 5) =~= d.subrange(3, 5));
                    if p.len() >= 14 {
                        assert(longer[5] == p[5] && longer[6] == p[6] && longer[12] == p[12]
                            && longer[13] == p[13]);
                    }
                }
            }
        }
    }
}

/// The first bytes of a payload that decodes either decode to the same, or
/// give an error of the kind `Truncated`.
pub proof fn cut_short_is_truncated(payload: Seq<u8>, n: int)
    requires
        jfif_of(payload) is Ok,
        0 <= n <= payload.len(),
    ensures
        jfif_of(payload.take(n)) == jfif_of(payload) || (jfif_of(payload.take(n)) is Err
            && jfif_of(payload.take(n))->Err_0.kind == JfifErrorKind::Truncated),
{
    let p = payload.take(n);
    let more = payload.skip(n);
    assert(p + more =~= payload);
    if settled(jfif_of(p)) {
        jfif_settles(p, more);
    }
}

} // verus!
