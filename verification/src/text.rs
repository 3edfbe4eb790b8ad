//! UTF-8 conversions between callback identifiers (strings) and the bytes
//! that travel with interchain messages.

use vstd::prelude::*;
use vstd::utf8::{decode_utf8, encode_utf8, valid_utf8};

verus! {

/// Calls `std::str::from_utf8`. Its documentation says that it succeeds
/// exactly when the bytes are valid UTF-8, and then returns the string they
/// encode; the contract states this with vstd's UTF-8 definitions.
#[verifier::external_body]
fn utf8_str(bytes: &[u8]) -> (r: Option<&str>)
    ensures
        r is Some <==> valid_utf8(bytes@),
        r matches Some(s) ==> s@ == decode_utf8(bytes@),
{
    std::str::from_utf8(bytes).ok()
}

/// The callback identifier that the bytes encode, or `None` where they are
/// not valid UTF-8.
pub fn decode_callback(bytes: &Vec<u8>) -> (r: Option<String>)
    ensures
        r is Some <==> valid_utf8(bytes@),
        r matches Some(s) ==> s@ == decode_utf8(bytes@),
{
    match utf8_str(bytes.as_slice()) {
        Some(s) => Some(s.to_owned()),
        None => None,
    }
}

/// The UTF-8 bytes of a callback identifier.
pub fn encode_callback(s: &String) -> (b: Vec<u8>)
    ensures
        b@ == encode_utf8(s@),
{
    let bytes = s.as_str().as_bytes();
    let mut v: Vec<u8> = Vec::new();
    for i in 0..bytes.len()
        invariant
            v@ == bytes@.take(i as int),
            bytes@ == encode_utf8(s@),
    {
        v.push(bytes[i]);
        assert(bytes@.take(i + 1) =~= bytes@.take(i as int).push(bytes@[i as int]));
    }
    assert(bytes@.take(bytes@.len() as int) =~= bytes@);
    v
}

} // verus!
