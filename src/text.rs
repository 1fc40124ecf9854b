//! Decoding bytes as UTF-8 text, and building messages.
use vstd::prelude::*;
use vstd::string::*;
use vstd::utf8::*;

verus! {

/// Relies on `std::str::from_utf8`: it succeeds exactly when the bytes are valid
/// UTF-8, and the string it then returns holds exactly those bytes. On failure the
/// error's rendering is handed back.
#[verifier::external_body]
pub(crate) fn str_from_utf8<'a>(v: &'a [u8]) -> (r: core::result::Result<&'a str, String>)
    ensures
        r is Ok <==> valid_utf8(v@),
        r matches Ok(s) ==> s.spec_bytes() == v@,
{
    match std::str::from_utf8(v) {
        Ok(s) => Ok(s),
        Err(e) => Err(e.to_string()),
    }
}

/// `prefix` followed by `detail`.
pub(crate) fn join(prefix: &str, detail: &str) -> (r: String)
    ensures
        r@ == prefix@ + detail@,
{
    let mut r = String::from_str(prefix);
    r.append(detail);
    r
}

} // verus!
