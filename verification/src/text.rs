use vstd::prelude::*;
use vstd::string::StringSliceAdditionalSpecFns;
use vstd::utf8::valid_utf8;

verus! {

/// Decodes `bytes` as UTF-8 text.
///
/// Calls `std::str::from_utf8`, which, as its documentation says, succeeds
/// exactly when the bytes are well-formed UTF-8, and then returns them as a
/// string slice. The contract claims that and nothing more: the result is
/// present exactly when `bytes` is valid UTF-8, and its UTF-8 encoding is
/// `bytes` itself.
#[verifier::external_body]
pub(crate) fn utf8_str(bytes: &[u8]) -> (r: Option<&str>)
    ensures
        r is Some <==> valid_utf8(bytes@),
        r matches Some(s) ==> s.spec_bytes() == bytes@,
{
    std::str::from_utf8(bytes).ok()
}

/// Whether two pieces of text are equal.
pub(crate) fn str_eq(a: &str, b: &str) -> (r: bool)
    ensures
        r == (a@ == b@),
{
    let a: String = a.to_owned();
    let b: String = b.to_owned();
    a == b
}

/// The concatenation of three pieces of text.
pub(crate) fn concat3(a: &str, b: &str, c: &str) -> (r: String)
    ensures
        r@ == a@ + b@ + c@,
{
    let mut r: String = a.to_owned();
    r.append(b);
    r.append(c);
    r
}

} // verus!
