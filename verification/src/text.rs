//! Text helpers: the one place bytes become owned text.

use vstd::prelude::*;

verus! {

/// Relies on `String::from_utf8`: succeeds exactly on well-formed UTF-8
/// input and decodes it.
#[verifier::external_body]
pub(crate) fn string_from_utf8(v: Vec<u8>) -> (r: Option<String>)
    ensures
        r is Some <==> vstd::utf8::valid_utf8(v@),
        r matches Some(s) ==> s@ == vstd::utf8::decode_utf8(v@),
{
    String::from_utf8(v).ok()
}

/// Relies on `str::as_bytes`: the bytes of a text are its UTF-8
/// encoding.
#[verifier::external_body]
pub(crate) fn string_to_bytes(s: &String) -> (r: Vec<u8>)
    ensures
        r@ == vstd::utf8::encode_utf8(s@),
{
    s.as_bytes().to_vec()
}

/// Clones a text, keeping its characters.
pub fn clone_string(s: &String) -> (r: String)
    ensures
        r@ == s@,
{
    s.clone()
}

} // verus!
