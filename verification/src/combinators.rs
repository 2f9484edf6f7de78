//! The streaming byte parsers of `nom` that the decoders are built from.
//!
//! Each function here hands its input to one parser of `nom` and states, as its
//! contract, what that parser returns. The contracts are not proved: they record
//! what the source of `nom` shows.

use vstd::prelude::*;

verus! {

/// Why a streaming parser of `nom` stopped: the library's own record of a
/// `nom::Err<nom::error::Error<&[u8]>>`.
#[derive(Debug, PartialEq, Eq)]
pub enum NomError {
    /// The input ended before the parser was done. `needed` is the count of
    /// bytes that are missing, zero where the parser cannot tell.
    Incomplete { needed: usize },
    /// The input does not start with the bytes that were asked for. `input` is
    /// the input that the parser was given.
    Mismatch { input: Vec<u8> },
}

impl NomError {
    /// The count of missing bytes where the input ended early.
    pub open spec fn shortfall(self) -> Option<usize> {
        match self {
            NomError::Incomplete { needed } => Some(needed),
            NomError::Mismatch { .. } => None,
        }
    }

    /// The input that did not match, empty where the input ended early.
    pub open spec fn rejected(self) -> Seq<u8> {
        match self {
            NomError::Incomplete { .. } => Seq::empty(),
            NomError::Mismatch { input } => input@,
        }
    }

    /// Whether the parser stopped for want of input.
    pub fn is_incomplete(&self) -> (r: bool)
        ensures
            r == (self.shortfall() is Some),
    {
        match self {
            NomError::Incomplete { .. } => true,
            NomError::Mismatch { .. } => false,
        }
    }
}

/// The unsigned number that two bytes hold, most significant byte first.
pub open spec fn be_u16_of(s: Seq<u8>) -> u16
    recommends
        s.len() >= 2,
{
    (s[0] as int * 256 + s[1] as int) as u16
}

/// The unsigned number that two bytes hold, least significant byte first.
pub open spec fn le_u16_of(s: Seq<u8>) -> u16
    recommends
        s.len() >= 2,
{
    (s[1] as int * 256 + s[0] as int) as u16
}

/// The unsigned number that four bytes hold, most significant byte first.
pub open spec fn be_u32_of(s: Seq<u8>) -> u32
    recommends
        s.len() >= 4,
{
    (s[0] as int * 16777216 + s[1] as int * 65536 + s[2] as int * 256 + s[3] as int) as u32
}

/// The unsigned number that four bytes hold, least significant byte first.
pub open spec fn le_u32_of(s: Seq<u8>) -> u32
    recommends
        s.len() >= 4,
{
    (s[3] as int * 16777216 + s[2] as int * 65536 + s[1] as int * 256 + s[0] as int) as u32
}

/// Whether `s` and `pattern` agree wherever both have a byte.
pub open spec fn agrees(s: Seq<u8>, pattern: Seq<u8>) -> bool {
    forall|i: int| 0 <= i < s.len() && i < pattern.len() ==> s[i] == pattern[i]
}

/// What a streaming parser that needs `n` bytes returns on an input of `len`
/// bytes that is too short: the count of the bytes that are missing.
pub open spec fn lacks<T>(r: Result<T, NomError>, n: int, len: int) -> bool {
    r is Err && r->Err_0 == (NomError::Incomplete { needed: (n - len) as usize })
}

/// `nom::number::streaming::u8`: the first byte of the input and the rest of
/// it; on an empty input, one byte is missing.
#[verifier::external_body]
pub(crate) fn u8<'a>(input: &'a [u8]) -> (r: Result<(&'a [u8], u8), NomError>)
    ensures
        input@.len() >= 1 ==> r is Ok && r->Ok_0.0@ == input@.skip(1) && r->Ok_0.1 == input@[0],
        input@.len() < 1 ==> lacks(r, 1, 0),
{
    match nom::number::streaming::u8::<&[u8], nom::error::Error<&[u8]>>(input) {
        Ok(found) => Ok(found),
        Err(nom::Err::Incomplete(nom::Needed::Size(n))) => Err(NomError::Incomplete { needed: n.get() }),
        Err(nom::Err::Incomplete(nom::Needed::Unknown)) => Err(NomError::Incomplete { needed: 0 }),
        Err(nom::Err::Error(e)) => Err(NomError::Mismatch { input: e.input.to_vec() }),
        Err(nom::Err::Failure(e)) => Err(NomError::Mismatch { input: e.input.to_vec() }),
    }
}

/// `nom::number::streaming::be_u16`: the number in the first two bytes, most significant first, and the rest of the input; on a shorter input, the count of bytes that are missing.
#[verifier::external_body]
pub(crate) fn be_u16<'a>(input: &'a [u8]) -> (r: Result<(&'a [u8], u16), NomError>)
    ensures
        input@.len() >= 2 ==> r is Ok && r->Ok_0.0@ == input@.skip(2) && r->Ok_0.1 == be_u16_of(input@),
        input@.len() < 2 ==> lacks(r, 2, input@.len() as int),
{
    match nom::number::streaming::be_u16::<&[u8], nom::error::Error<&[u8]>>(input) {
        Ok(found) => Ok(found),
        Err(nom::Err::Incomplete(nom::Needed::Size(n))) => Err(NomError::Incomplete { needed: n.get() }),
        Err(nom::Err::Incomplete(nom::Needed::Unknown)) => Err(NomError::Incomplete { needed: 0 }),
        Err(nom::Err::Error(e)) => Err(NomError::Mismatch { input: e.input.to_vec() }),
        Err(nom::Err::Failure(e)) => Err(NomError::Mismatch { input: e.input.to_vec() }),
    }
}

/// `nom::number::streaming::le_u16`: the number in the first two bytes, least significant first, and the rest of the input; on a shorter input, the count of bytes that are missing.
#[verifier::external_body]
pub(crate) fn le_u16<'a>(input: &'a [u8]) -> (r: Result<(&'a [u8], u16), NomError>)
    ensures
        input@.len() >= 2 ==> r is Ok && r->Ok_0.0@ == input@.skip(2) && r->Ok_0.1 == le_u16_of(input@),
        input@.len() < 2 ==> lacks(r, 2, input@.len() as int),
{
    match nom::number::streaming::le_u16::<&[u8], nom::error::Error<&[u8]>>(input) {
        Ok(found) => Ok(found),
        Err(nom::Err::Incomplete(nom::Needed::Size(n))) => Err(NomError::Incomplete { needed: n.get() }),
        Err(nom::Err::Incomplete(nom::Needed::Unknown)) => Err(NomError::Incomplete { needed: 0 }),
        Err(nom::Err::Error(e)) => Err(NomError::Mismatch { input: e.input.to_vec() }),
        Err(nom::Err::Failure(e)) => Err(NomError::Mismatch { input: e.input.to_vec() }),
    }
}

/// `nom::number::streaming::be_u32`: the number in the first four bytes, most significant first, and the rest of the input; on a shorter input, the count of bytes that are missing.
#[verifier::external_body]
pub(crate) fn be_u32<'a>(input: &'a [u8]) -> (r: Result<(&'a [u8], u32), NomError>)
    ensures
        input@.len() >= 4 ==> r is Ok && r->Ok_0.0@ == input@.skip(4) && r->Ok_0.1 == be_u32_of(input@),
        input@.len() < 4 ==> lacks(r, 4, input@.len() as int),
{
    match nom::number::streaming::be_u32::<&[u8], nom::error::Error<&[u8]>>(input) {
        Ok(found) => Ok(found),
        Err(nom::Err::Incomplete(nom::Needed::Size(n))) => Err(NomError::Incomplete { needed: n.get() }),
        Err(nom::Err::Incomplete(nom::Needed::Unknown)) => Err(NomError::Incomplete { needed: 0 }),
        Err(nom::Err::Error(e)) => Err(NomError::Mismatch { input: e.input.to_vec() }),
        Err(nom::Err::Failure(e)) => Err(NomError::Mismatch { input: e.input.to_vec() }),
    }
}

/// `nom::number::streaming::le_u32`: the number in the first four bytes, least significant first, and the rest of the input; on a shorter input, the count of bytes that are missing.
#[verifier::external_body]
pub(crate) fn le_u32<'a>(input: &'a [u8]) -> (r: Result<(&'a [u8], u32), NomError>)
    ensures
        input@.len() >= 4 ==> r is Ok && r->Ok_0.0@ == input@.skip(4) && r->Ok_0.1 == le_u32_of(input@),
        input@.len() < 4 ==> lacks(r, 4, input@.len() as int),
{
    match nom::number::streaming::le_u32::<&[u8], nom::error::Error<&[u8]>>(input) {
        Ok(found) => Ok(found),
        Err(nom::Err::Incomplete(nom::Needed::Size(n))) => Err(NomError::Incomplete { needed: n.get() }),
        Err(nom::Err::Incomplete(nom::Needed::Unknown)) => Err(NomError::Incomplete { needed: 0 }),
        Err(nom::Err::Error(e)) => Err(NomError::Mismatch { input: e.input.to_vec() }),
        Err(nom::Err::Failure(e)) => Err(NomError::Mismatch { input: e.input.to_vec() }),
    }
}

/// `nom::bytes::streaming::take`: the first `count` bytes of the input and the
/// rest of it; on a shorter input, the count of bytes that are missing.
#[verifier::external_body]
pub(crate) fn take<'a>(input: &'a [u8], count: usize) -> (r: Result<(&'a [u8], &'a [u8]), NomError>)
    ensures
        input@.len() >= count ==> r is Ok && r->Ok_0.0@ == input@.skip(count as int)
            && r->Ok_0.1@ == input@.take(count as int),
        input@.len() < count ==> lacks(r, count as int, input@.len() as int),
{
    match nom::bytes::streaming::take::<usize, &[u8], nom::error::Error<&[u8]>>(count)(input) {
        Ok(found) => Ok(found),
        Err(nom::Err::Incomplete(nom::Needed::Size(n))) => Err(NomError::Incomplete { needed: n.get() }),
        Err(nom::Err::Incomplete(nom::Needed::Unknown)) => Err(NomError::Incomplete { needed: 0 }),
        Err(nom::Err::Error(e)) => Err(NomError::Mismatch { input: e.input.to_vec() }),
        Err(nom::Err::Failure(e)) => Err(NomError::Mismatch { input: e.input.to_vec() }),
    }
}

/// `nom::bytes::streaming::tag` with a pattern of bytes. Where the input
/// starts with the pattern: the part that matched and the rest of the input.
/// Where a byte of the input differs from the pattern's byte at the same place:
/// a mismatch that holds the whole input. Where the input is a proper start of
/// the pattern: the count of bytes that are missing.
#[verifier::external_body]
pub(crate) fn tag<'a>(input: &'a [u8], pattern: &[u8]) -> (r: Result<(&'a [u8], &'a [u8]), NomError>)
    ensures
        agrees(input@, pattern@) && input@.len() >= pattern@.len() ==> r is Ok
            && r->Ok_0.0@ == input@.skip(pattern@.len() as int)
            && r->Ok_0.1@ == input@.take(pattern@.len() as int),
        agrees(input@, pattern@) && input@.len() < pattern@.len() ==> lacks(
            r,
            pattern@.len() as int,
            input@.len() as int,
        ),
        !agrees(input@, pattern@) ==> r is Err && r->Err_0.shortfall() is None
            && r->Err_0.rejected() == input@,
{
    match nom::bytes::streaming::tag::<&[u8], &[u8], nom::error::Error<&[u8]>>(pattern)(input) {
        Ok(found) => Ok(found),
        Err(nom::Err::Incomplete(nom::Needed::Size(n))) => Err(NomError::Incomplete { needed: n.get() }),
        Err(nom::Err::Incomplete(nom::Needed::Unknown)) => Err(NomError::Incomplete { needed: 0 }),
        Err(nom::Err::Error(e)) => Err(NomError::Mismatch { input: e.input.to_vec() }),
        Err(nom::Err::Failure(e)) => Err(NomError::Mismatch { input: e.input.to_vec() }),
    }
}

/// `nom::multi::count` over `nom::number::streaming::u8`: the first `count`
/// bytes of the input, copied, and the rest of it. On a shorter input the
/// byte parser fails at the end of the input, where one byte is missing.
#[verifier::external_body]
pub(crate) fn count_u8<'a>(input: &'a [u8], count: usize) -> (r: Result<(&'a [u8], Vec<u8>), NomError>)
    ensures
        input@.len() >= count ==> r is Ok && r->Ok_0.0@ == input@.skip(count as int)
            && r->Ok_0.1@ == input@.take(count as int),
        input@.len() < count ==> lacks(r, 1, 0),
{
    match nom::multi::count(nom::number::streaming::u8::<&[u8], nom::error::Error<&[u8]>>, count)(input) {
        Ok(found) => Ok(found),
        Err(nom::Err::Incomplete(nom::Needed::Size(n))) => Err(NomError::Incomplete { needed: n.get() }),
        Err(nom::Err::Incomplete(nom::Needed::Unknown)) => Err(NomError::Incomplete { needed: 0 }),
        Err(nom::Err::Error(e)) => Err(NomError::Mismatch { input: e.input.to_vec() }),
        Err(nom::Err::Failure(e)) => Err(NomError::Mismatch { input: e.input.to_vec() }),
    }
}

/// The text that `nom` prints for an error: a function of the count of missing
/// bytes, where the input ended early, and of the rejected input otherwise.
pub uninterp spec fn nom_display(needed: Option<usize>, input: Seq<u8>) -> Seq<char>;

/// The `Display` of `nom::Err`, on the error of `nom` that `e` records: an
/// incomplete input with its count of missing bytes, or an error on the
/// rejected input with the code `Tag`. The text is what `nom` prints.
#[verifier::external_body]
pub(crate) fn display(e: &NomError) -> (r: String)
    ensures
        r@ == nom_display(e.shortfall(), e.rejected()),
{
    match e {
        NomError::Incomplete { needed } => nom::Err::<nom::error::Error<&[u8]>>::Incomplete(
            nom::Needed::new(*needed),
        ).to_string(),
        NomError::Mismatch { input } => nom::Err::Error(
            nom::error::Error::new(&input[..], nom::error::ErrorKind::Tag),
        ).to_string(),
    }
}

} // verus!
