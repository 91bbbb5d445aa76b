//! Decoding of text that the system hands over as raw code units.

use vstd::prelude::*;

verus! {

/// The characters that `String::from_utf8_lossy` decodes from a string of bytes.
pub uninterp spec fn utf8_lossy(bytes: Seq<u8>) -> Seq<char>;

/// The characters that `String::from_utf16_lossy` decodes from a string of 16-bit units.
pub uninterp spec fn utf16_lossy(units: Seq<u16>) -> Seq<char>;

/// Calls `String::from_utf8_lossy` and owns the result. The decoding itself
/// is std's and is not proved here: the contract only names its result.
#[verifier::external_body]
pub(crate) fn string_from_utf8_lossy(bytes: &[u8]) -> (s: String)
    ensures
        s@ == utf8_lossy(bytes@),
{
    String::from_utf8_lossy(bytes).into_owned()
}

/// Calls `String::from_utf16_lossy`. The decoding itself is std's and is not
/// proved here: the contract only names its result.
#[verifier::external_body]
pub(crate) fn string_from_utf16_lossy(units: &[u16]) -> (s: String)
    ensures
        s@ == utf16_lossy(units@),
{
    String::from_utf16_lossy(units)
}

} // verus!
