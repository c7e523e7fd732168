//! Base64 transport coding, behind trusted wrappers over the base64
//! crate's standard engine. The coded forms are named, not restated: the
//! contracts of the callers speak of `b64_decode_of` / `b64_encode_of`,
//! and the wrappers state the documented inverse between the two.

use vstd::prelude::*;

verus! {

/// What the standard, padded base64 decoding of a string yields, where it
/// decodes at all.
pub uninterp spec fn b64_decode_of(s: Seq<char>) -> Option<Seq<u8>>;

/// The standard, padded base64 encoding of a byte sequence.
pub uninterp spec fn b64_encode_of(b: Seq<u8>) -> Seq<char>;

/// Relies on base64's general_purpose::STANDARD engine: `decode` accepts
/// exactly the standard padded alphabet, its result is a function of the
/// input string alone, and it inverts what `encode` produced.
#[verifier::external_body]
pub(crate) fn b64_decode(s: &str) -> (r: Option<Vec<u8>>)
    ensures
        r matches Some(v) ==> b64_decode_of(s@) == Some(v@),
        r is None ==> b64_decode_of(s@) is None,
        r is None ==> forall|b: Seq<u8>| s@ != b64_encode_of(b),
        r matches Some(v) ==> forall|b: Seq<u8>| s@ == b64_encode_of(b) ==> v@ == b,
{
    base64::Engine::decode(&base64::engine::general_purpose::STANDARD, s).ok()
}

/// Relies on base64's general_purpose::STANDARD engine: `encode` writes
/// four output characters for every three input bytes, padded, its result
/// is a function of the input bytes alone, and decoding it gives the
/// input back.
#[verifier::external_body]
pub(crate) fn b64_encode(b: &Vec<u8>) -> (r: String)
    ensures
        r@ == b64_encode_of(b@),
        r@.len() == 4 * ((b@.len() + 2) / 3),
        b64_decode_of(r@) == Some(b@),
{
    base64::Engine::encode(&base64::engine::general_purpose::STANDARD, b.as_slice())
}

} // verus!
