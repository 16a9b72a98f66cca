use vstd::prelude::*;

use crate::utf16::{
    is_utf16, lemma_utf16_decode_encode, lemma_utf16_encode_no_nul, utf16_decode, utf16_encode,
};
use crate::winapi::WCHAR;
use widestring::error::{MissingNulTerminator, Utf16Error};
use widestring::{U16CStr, U16Str};

verus! {

#[verifier::external_type_specification]
#[verifier::external_body]
pub struct ExMissingNulTerminator(MissingNulTerminator);

#[verifier::external_type_specification]
#[verifier::external_body]
pub struct ExUtf16Error(Utf16Error);

/// Conversion of a nul-terminated wide (UTF-16) buffer into a value.
pub trait FromWide {
    type Error;

    fn from_wide(wstr: &[WCHAR]) -> Result<String, Self::Error>;
}

/// Why a wide buffer could not be turned into a `String`.
#[derive(Debug)]
pub enum FromWideError {
    /// The buffer holds no nul unit.
    MissingNulTerminator(MissingNulTerminator),
    /// The units before the first nul are not valid UTF-16.
    Utf16Error(Utf16Error),
}

impl From<MissingNulTerminator> for FromWideError {
    fn from(value: MissingNulTerminator) -> (r: Self) {
        FromWideError::MissingNulTerminator(value)
    }
}

impl vstd::std_specs::convert::FromSpecImpl<MissingNulTerminator> for FromWideError {
    open spec fn obeys_from_spec() -> bool {
        true
    }

    open spec fn from_spec(value: MissingNulTerminator) -> Self {
        FromWideError::MissingNulTerminator(value)
    }
}

impl From<Utf16Error> for FromWideError {
    fn from(value: Utf16Error) -> (r: Self) {
        FromWideError::Utf16Error(value)
    }
}

impl vstd::std_specs::convert::FromSpecImpl<Utf16Error> for FromWideError {
    open spec fn obeys_from_spec() -> bool {
        true
    }

    open spec fn from_spec(value: Utf16Error) -> Self {
        FromWideError::Utf16Error(value)
    }
}

/// The units of a wide buffer that come before its first nul unit (all of
/// them when it holds none).
pub open spec fn before_nul(units: Seq<u16>) -> Seq<u16>
    decreases units.len(),
{
    if units.len() == 0 {
        units
    } else if units[0] == 0 {
        Seq::empty()
    } else {
        seq![units[0]] + before_nul(units.drop_first())
    }
}

/// The characters that a nul-terminated wide buffer holds: `None` when it has
/// no nul unit or when the units before the first one are not valid UTF-16.
pub open spec fn wide_decoding(units: Seq<u16>) -> Option<Seq<char>> {
    if units.contains(0u16) && is_utf16(before_nul(units)) {
        Some(utf16_decode(before_nul(units)))
    } else {
        None
    }
}

/// Calls `widestring::U16CStr::from_slice_truncate`, which scans `wstr` for
/// its first nul unit: it fails with `MissingNulTerminator` when there is
/// none, and otherwise gives the wide C string that ends there, whose units
/// without the terminator (`U16CStr::as_slice`) are returned here.
#[verifier::external_body]
fn units_before_nul<'a>(wstr: &'a [u16]) -> (r: Result<&'a [u16], MissingNulTerminator>)
    ensures
        r is Err <==> !wstr@.contains(0u16),
        r matches Ok(units) ==> units@ == before_nul(wstr@),
{
    match U16CStr::from_slice_truncate(wstr) {
        Ok(s) => Ok(s.as_slice()),
        Err(e) => Err(e),
    }
}

/// Calls `widestring::U16Str::to_string` on the units, which decodes them as
/// UTF-16: it succeeds exactly when they are the UTF-16 encoding of some
/// characters, and then returns those characters.
#[verifier::external_body]
fn utf16_to_string(units: &[u16]) -> (r: Result<String, Utf16Error>)
    ensures
        r is Ok <==> is_utf16(units@),
        r matches Ok(s) ==> utf16_encode(s@) == units@,
{
    U16Str::from_slice(units).to_string()
}

impl FromWide for String {
    type Error = FromWideError;

    /// Decodes the UTF-16 units that come before the first nul unit of `wstr`.
    fn from_wide(wstr: &[WCHAR]) -> (r: Result<String, FromWideError>)
        ensures
            r matches Err(FromWideError::MissingNulTerminator(_)) <==> !wstr@.contains(0u16),
            r matches Err(FromWideError::Utf16Error(_)) <==> wstr@.contains(0u16) && !is_utf16(
                before_nul(wstr@),
            ),
            r is Ok <==> wide_decoding(wstr@) is Some,
            r matches Ok(s) ==> wide_decoding(wstr@) == Some(s@),
    {
        match units_before_nul(wstr) {
            Err(e) => Err(FromWideError::from(e)),
            Ok(units) => match utf16_to_string(units) {
                Ok(s) => {
                    proof {
                        lemma_utf16_decode_encode(s@);
                    }
                    Ok(s)
                },
                Err(e) => Err(FromWideError::from(e)),
            },
        }
    }
}


/// The units before the first nul of `units + [0] + tail` are `units` itself
/// when `units` holds no nul.
pub proof fn lemma_before_nul_of_terminated(units: Seq<u16>, tail: Seq<u16>)
    requires
        !units.contains(0u16),
    ensures
        before_nul(units + seq![0u16] + tail) == units,
        (units + seq![0u16] + tail).contains(0u16),
    decreases units.len(),
{
    let whole = units + seq![0u16] + tail;
    assert(whole[units.len() as int] == 0u16);
    if units.len() > 0 {
        assert(units[0] != 0u16) by {
            if units[0] == 0u16 {
                assert(units.contains(0u16));
            }
        }
        let rest = units.drop_first();
        assert(!rest.contains(0u16)) by {
            if rest.contains(0u16) {
                let i = choose|i: int| 0 <= i < rest.len() && rest[i] == 0u16;
                assert(units[i + 1] == 0u16);
            }
        }
        lemma_before_nul_of_terminated(rest, tail);
        assert(whole.drop_first() =~= rest + seq![0u16] + tail);
        assert(units =~= seq![units[0]] + rest);
    } else {
        assert(whole[0] == 0u16);
    }
}

/// Reading back what was written: a character sequence without nul characters,
/// encoded as UTF-16 and followed by a nul unit and anything at all, is decoded
/// to that same sequence.
pub proof fn lemma_wide_decoding_round_trip(s: Seq<char>, tail: Seq<u16>)
    requires
        forall|i: int| 0 <= i < s.len() ==> s[i] as int != 0,
    ensures
        wide_decoding(utf16_encode(s) + seq![0u16] + tail) == Some(s),
{
    lemma_utf16_encode_no_nul(s);
    lemma_before_nul_of_terminated(utf16_encode(s), tail);
    lemma_utf16_decode_encode(s);
}

/// Only the units before the first nul count: whatever follows it does not
/// change the outcome of decoding.
pub proof fn lemma_wide_decoding_ignores_tail(units: Seq<u16>, tail1: Seq<u16>, tail2: Seq<u16>)
    requires
        !units.contains(0u16),
    ensures
        wide_decoding(units + seq![0u16] + tail1) == wide_decoding(units + seq![0u16] + tail2),
{
    lemma_before_nul_of_terminated(units, tail1);
    lemma_before_nul_of_terminated(units, tail2);
}

} // verus!
