//! Addresses of the services that the endpoints call.

use vstd::prelude::*;
use crate::error::ServiceError;

verus! {

/// The failure of reading an address.
#[verifier::external_type_specification]
#[verifier::external_body]
pub struct ExParseError(url::ParseError);

/// The address that a reference resolves to against a base address, as the
/// `url` crate resolves it; `None` where the base is no absolute address or
/// the reference cannot be resolved against it.
pub uninterp spec fn joined(base: Seq<char>, reference: Seq<char>) -> Option<Seq<char>>;

/// Calls `Url::parse` on the base and `Url::join` with the reference, of the
/// `url` crate, and takes the text of the result. Trusted: the calls succeed
/// exactly where the reference resolves against the base, and then give the
/// resolved address.
#[verifier::external_body]
fn join_url(base: &str, reference: &str) -> (r: Result<String, url::ParseError>)
    ensures
        r is Ok <==> joined(base@, reference@) is Some,
        r matches Ok(address) ==> joined(base@, reference@) == Some(address@),
{
    match url::Url::parse(base) {
        Ok(parsed) => match parsed.join(reference) {
            Ok(address) => Ok(String::from(address)),
            Err(e) => Err(e),
        },
        Err(e) => Err(e),
    }
}

/// The address of an endpoint: the path resolved against the base address of
/// its service. Fails with [`ServiceError::Url`] where it does not resolve.
pub fn endpoint(base: &str, path: &str) -> (r: Result<String, ServiceError>)
    ensures
        match r {
            Ok(address) => joined(base@, path@) == Some(address@),
            Err(e) => joined(base@, path@) is None && e == ServiceError::Url,
        },
{
    match join_url(base, path) {
        Ok(address) => Ok(address),
        Err(_) => Err(ServiceError::Url),
    }
}

} // verus!
