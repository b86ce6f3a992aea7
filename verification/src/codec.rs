//! Percent-encoding of the texts that travel in addresses.

use vstd::prelude::*;

verus! {

/// The failure of turning bytes into text: they are no UTF-8.
#[verifier::external_type_specification]
#[verifier::external_body]
pub struct ExFromUtf8Error(std::string::FromUtf8Error);

/// The percent-encoded form of a text, as `urlencoding::encode` gives it:
/// every byte of the text's UTF-8 form is escaped, except letters, digits and
/// `-`, `_`, `.`, `~`.
pub uninterp spec fn percent_encoded(text: Seq<char>) -> Seq<char>;

/// The text that a percent-encoded text stands for, as `urlencoding::decode`
/// gives it; `None` where the decoded bytes are no UTF-8.
pub uninterp spec fn percent_decoded(text: Seq<char>) -> Option<Seq<char>>;

/// Calls `urlencoding::encode`. Trusted: the result is the percent-encoded
/// form of the text.
#[verifier::external_body]
pub(crate) fn encode_text(text: &str) -> (r: String)
    ensures
        r@ == percent_encoded(text@),
{
    urlencoding::encode(text).into_owned()
}

/// Calls `urlencoding::decode`. Trusted: the call succeeds exactly where the
/// decoded bytes are UTF-8, and then gives the decoded text.
#[verifier::external_body]
fn decode_text(text: &str) -> (r: Result<String, std::string::FromUtf8Error>)
    ensures
        r is Ok <==> percent_decoded(text@) is Some,
        r matches Ok(decoded) ==> percent_decoded(text@) == Some(decoded@),
{
    match urlencoding::decode(text) {
        Ok(decoded) => Ok(decoded.into_owned()),
        Err(e) => Err(e),
    }
}

/// The text that a percent-encoded text stands for, if it stands for one.
pub fn decode(text: &str) -> (r: Option<String>)
    ensures
        r.deep_view() == percent_decoded(text@),
{
    match decode_text(text) {
        Ok(decoded) => Some(decoded),
        Err(_) => None,
    }
}

} // verus!
