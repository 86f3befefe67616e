use vstd::prelude::*;
use vstd::utf8::{decode_utf8, valid_utf8};

verus! {

/// The bytes a text decodes to under standard base64, or `None` where the
/// text is not well-formed base64.
pub uninterp spec fn b64_of(text: Seq<char>) -> Option<Seq<u8>>;

/// Relies on `base64::decode`: it returns `Ok` exactly on well-formed
/// standard-alphabet base64 text, and then returns the decoded bytes.
#[verifier::external_body]
pub(crate) fn b64_decode(text: &str) -> (r: Option<Vec<u8>>)
    ensures
        r matches Some(v) ==> b64_of(text@) == Some(v@),
        r is None ==> b64_of(text@) is None,
{
    base64::decode(text).ok()
}

/// Relies on `String::from_utf8`: it returns `Ok` exactly when the bytes are
/// valid UTF-8, and then carries the characters they encode.
#[verifier::external_body]
pub(crate) fn utf8_to_string(bytes: &Vec<u8>) -> (r: Option<String>)
    ensures
        r matches Some(s) ==> valid_utf8(bytes@) && s@ == decode_utf8(bytes@),
        r is None ==> !valid_utf8(bytes@),
{
    String::from_utf8(bytes.clone()).ok()
}

/// Relies on `String::push`: it appends exactly the one character.
#[verifier::external_body]
pub(crate) fn push_char(s: &mut String, c: char)
    ensures
        final(s)@ == old(s)@.push(c),
{
    s.push(c);
}

} // verus!
