use vstd::prelude::*;
use vstd::string::StringExecFns;

verus! {

/// What `std::str::from_utf8` makes of a byte sequence: the characters it
/// encodes, or `None` where the bytes are not valid UTF-8.
pub uninterp spec fn utf8_decoding(bytes: Seq<u8>) -> Option<Seq<char>>;

/// Relies on `std::str::from_utf8`: succeeds exactly on valid UTF-8 and then
/// yields the encoded characters; the empty sequence is valid and empty.
#[verifier::external_body]
pub(crate) fn decode_utf8(bytes: &[u8]) -> (r: Option<String>)
    ensures
        r is Some <==> utf8_decoding(bytes@) is Some,
        r matches Some(s) ==> s@ == utf8_decoding(bytes@)->Some_0,
        bytes@.len() == 0 ==> r is Some && r->Some_0@.len() == 0,
{
    match std::str::from_utf8(bytes) {
        Ok(s) => Some(s.to_string()),
        Err(_) => None,
    }
}

/// A message made of a fixed prefix followed by the cause it reports.
pub fn with_cause(prefix: &str, cause: &String) -> (r: String)
    ensures
        r@ == prefix@ + cause@,
{
    let head = String::from_str(prefix);
    head.concat(cause.as_str())
}

/// A message that is exactly the given text.
pub fn message(text: &str) -> (r: String)
    ensures
        r@ == text@,
{
    String::from_str(text)
}

} // verus!
