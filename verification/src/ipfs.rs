//! The blob gateway: a content-addressed store behind an HTTP API.

use vstd::prelude::*;
use crate::address::{endpoint, joined};
use crate::error::ServiceError;
use crate::service::JMServiceInner;

verus! {

/// What the gateway answers to an upload: the content id that it assigned, the
/// name under which the file was sent, and the size that it declares.
#[derive(Debug, PartialEq, Eq)]
pub struct IPFSFile {
    pub hash: String,
    pub name: String,
    pub size: String,
}

/// The mathematical value of an [`IPFSFile`].
pub struct IPFSFileView {
    pub hash: Seq<char>,
    pub name: Seq<char>,
    pub size: Seq<char>,
}

impl View for IPFSFile {
    type V = IPFSFileView;

    open spec fn view(&self) -> IPFSFileView {
        IPFSFileView { hash: self.hash@, name: self.name@, size: self.size@ }
    }
}

impl DeepView for IPFSFile {
    type V = IPFSFileView;

    open spec fn deep_view(&self) -> IPFSFileView {
        self@
    }
}

impl Clone for IPFSFile {
    fn clone(&self) -> (r: Self)
        ensures
            r@ == self@,
    {
        IPFSFile { hash: self.hash.clone(), name: self.name.clone(), size: self.size.clone() }
    }
}

/// The query of a retrieval: the content id.
#[derive(Debug, PartialEq, Eq)]
pub struct CatQuery {
    pub arg: String,
}

/// The query of an upload: whether the gateway is to pin the new object.
#[derive(Clone, Copy, Debug, PartialEq, Eq)]
pub struct AddQuery {
    pub pin: bool,
}

/// The query of a pin request: the content id.
#[derive(Debug, PartialEq, Eq)]
pub struct PinQuery {
    pub arg: String,
}

impl CatQuery {
    pub fn new(cid: String) -> (r: Self)
        ensures
            r.arg == cid,
    {
        Self { arg: cid }
    }
}

impl AddQuery {
    pub fn new(pin: bool) -> (r: Self)
        ensures
            r.pin == pin,
    {
        Self { pin }
    }
}

impl PinQuery {
    pub fn new(cid: String) -> (r: Self)
        ensures
            r.arg == cid,
    {
        Self { arg: cid }
    }
}

/// The seconds that the gateway is given for a pin: pinning can be slow.
pub const PIN_TIMEOUT_SECS: u64 = 60;

/// The retrieval of an object: a POST to `url` with the query.
#[derive(Debug, PartialEq, Eq)]
pub struct CatRequest {
    pub url: String,
    pub query: CatQuery,
}

/// The upload of a file: a POST to `url` with the query and a multipart form
/// whose part `part` carries the bytes under the file name `filename`.
#[derive(Debug, PartialEq, Eq)]
pub struct AddRequest {
    pub url: String,
    pub query: AddQuery,
    pub part: String,
    pub filename: String,
}

/// The pin of an object: a POST to `url` with the query, given `timeout_secs`
/// seconds.
#[derive(Debug, PartialEq, Eq)]
pub struct PinRequest {
    pub url: String,
    pub query: PinQuery,
    pub timeout_secs: u64,
}

/// The retrieval of the object with the content id `cid` at the given
/// address, or the failure to form the address.
pub fn cat_request(address: Result<String, ServiceError>, cid: String) -> (r: Result<
    CatRequest,
    ServiceError,
>)
    ensures
        match address {
            Ok(url) => r matches Ok(request) && request.url == url && request.query.arg == cid,
            Err(e) => r == Err::<CatRequest, ServiceError>(e),
        },
{
    match address {
        Ok(url) => Ok(CatRequest { url, query: CatQuery::new(cid) }),
        Err(e) => Err(e),
    }
}

/// The upload of a file under the name `filename` to the given address,
/// without pinning it, or the failure to form the address.
pub fn add_request(address: Result<String, ServiceError>, filename: String) -> (r: Result<
    AddRequest,
    ServiceError,
>)
    ensures
        match address {
            Ok(url) => {
                &&& r matches Ok(request)
                &&& request.url == url
                &&& !request.query.pin
                &&& request.part@ == "file"@
                &&& request.filename == filename
            },
            Err(e) => r == Err::<AddRequest, ServiceError>(e),
        },
{
    match address {
        Ok(url) => Ok(
            AddRequest { url, query: AddQuery::new(false), part: String::from_str("file"), filename },
        ),
        Err(e) => Err(e),
    }
}

/// The pin of the object with the content id `cid` at the given address,
/// with the longer timeout, or the failure to form the address.
pub fn pin_request(address: Result<String, ServiceError>, cid: String) -> (r: Result<
    PinRequest,
    ServiceError,
>)
    ensures
        match address {
            Ok(url) => {
                &&& r matches Ok(request)
                &&& request.url == url
                &&& request.query.arg == cid
                &&& request.timeout_secs == PIN_TIMEOUT_SECS
            },
            Err(e) => r == Err::<PinRequest, ServiceError>(e),
        },
{
    match address {
        Ok(url) => Ok(PinRequest { url, query: PinQuery::new(cid), timeout_secs: PIN_TIMEOUT_SECS }),
        Err(e) => Err(e),
    }
}

impl JMServiceInner {
    /// The request that fetches the object with the content id `cid`. Fails
    /// where the gateway's address does not resolve.
    pub fn ipfs_cat(&self, cid: String) -> (r: Result<CatRequest, ServiceError>)
        ensures
            match r {
                Ok(request) => {
                    &&& joined(self.ipfs_base(), "/api/v0/cat"@) == Some(request.url@)
                    &&& request.query.arg@ == cid@
                },
                Err(e) => joined(self.ipfs_base(), "/api/v0/cat"@) is None && e
                    == ServiceError::Url,
            },
    {
        proof {
            self.lemma_accessors();
        }
        cat_request(endpoint(self.ipfs_url.as_str(), "/api/v0/cat"), cid)
    }

    /// The request that stores a file under the name `filename`, without
    /// pinning it. Fails where the gateway's address does not resolve.
    pub fn ipfs_add(&self, filename: String) -> (r: Result<AddRequest, ServiceError>)
        ensures
            match r {
                Ok(request) => {
                    &&& joined(self.ipfs_base(), "/api/v0/add"@) == Some(request.url@)
                    &&& !request.query.pin
                    &&& request.part@ == "file"@
                    &&& request.filename@ == filename@
                },
                Err(e) => joined(self.ipfs_base(), "/api/v0/add"@) is None && e
                    == ServiceError::Url,
            },
    {
        proof {
            self.lemma_accessors();
        }
        add_request(endpoint(self.ipfs_url.as_str(), "/api/v0/add"), filename)
    }

    /// The request that pins the object with the content id `cid`, with the
    /// longer timeout. Fails where the gateway's address does not resolve.
    pub fn ipfs_pin(&self, cid: String) -> (r: Result<PinRequest, ServiceError>)
        ensures
            match r {
                Ok(request) => {
                    &&& joined(self.ipfs_base(), "/api/v0/pin/add"@) == Some(request.url@)
                    &&& request.query.arg@ == cid@
                    &&& request.timeout_secs == PIN_TIMEOUT_SECS
                },
                Err(e) => joined(self.ipfs_base(), "/api/v0/pin/add"@) is None && e
                    == ServiceError::Url,
            },
    {
        proof {
            self.lemma_accessors();
        }
        pin_request(endpoint(self.ipfs_url.as_str(), "/api/v0/pin/add"), cid)
    }
}

} // verus!
