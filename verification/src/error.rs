//! The failures of the service.

use vstd::prelude::*;
use crate::status::HttpStatus;

verus! {

/// Why a data-access operation failed: the row is absent, or anything else
/// (connectivity, a violated constraint).
#[derive(Clone, Copy, Debug, PartialEq, Eq, Structural)]
pub enum SqlError {
    RowNotFound,
    Other,
}

/// Why a call to the blob gateway or to the chat bridge failed.
#[derive(Clone, Copy, Debug, PartialEq, Eq)]
pub enum ServiceError {
    /// The request could not be sent or its answer could not be read.
    Reqwest,
    /// The address of the endpoint could not be formed.
    Url,
    /// The endpoint answered with a status that is no success.
    InvalidResponse(HttpStatus),
}

/// The mathematical value of a [`ServiceError`].
pub enum ServiceErrorView {
    Reqwest,
    Url,
    InvalidResponse(u16),
}

impl View for ServiceError {
    type V = ServiceErrorView;

    open spec fn view(&self) -> ServiceErrorView {
        match self {
            ServiceError::Reqwest => ServiceErrorView::Reqwest,
            ServiceError::Url => ServiceErrorView::Url,
            ServiceError::InvalidResponse(status) => ServiceErrorView::InvalidResponse(
                status.code(),
            ),
        }
    }
}

/// Why a request to the API failed.
#[derive(Debug, PartialEq, Eq)]
pub enum APIError {
    /// A data-access operation failed.
    Sql(SqlError),
    /// The multipart body could not be read.
    Multipart,
    BadRequest(String),
    Unauthorized(String),
    Forbidden(String),
    NotFound(String),
    Internal(String),
    /// The blob gateway or the chat bridge failed.
    Service(ServiceError),
    /// The query parameters were rejected.
    Query,
    /// A percent-encoded text did not decode to UTF-8.
    Decode,
}

/// The mathematical value of an [`APIError`].
pub enum APIErrorView {
    Sql(SqlError),
    Multipart,
    BadRequest(Seq<char>),
    Unauthorized(Seq<char>),
    Forbidden(Seq<char>),
    NotFound(Seq<char>),
    Internal(Seq<char>),
    Service(ServiceErrorView),
    Query,
    Decode,
}

impl View for APIError {
    type V = APIErrorView;

    open spec fn view(&self) -> APIErrorView {
        match self {
            APIError::Sql(e) => APIErrorView::Sql(*e),
            APIError::Multipart => APIErrorView::Multipart,
            APIError::BadRequest(m) => APIErrorView::BadRequest(m@),
            APIError::Unauthorized(m) => APIErrorView::Unauthorized(m@),
            APIError::Forbidden(m) => APIErrorView::Forbidden(m@),
            APIError::NotFound(m) => APIErrorView::NotFound(m@),
            APIError::Internal(m) => APIErrorView::Internal(m@),
            APIError::Service(e) => APIErrorView::Service(e@),
            APIError::Query => APIErrorView::Query,
            APIError::Decode => APIErrorView::Decode,
        }
    }
}

impl DeepView for APIError {
    type V = APIErrorView;

    open spec fn deep_view(&self) -> APIErrorView {
        self@
    }
}

impl APIError {
    /// A bad request with the given message.
    pub fn bad_request(message: &str) -> (r: APIError)
        ensures
            r@ == APIErrorView::BadRequest(message@),
    {
        APIError::BadRequest(String::from_str(message))
    }

    /// A missing credential, with the given message.
    pub fn unauthorized(message: &str) -> (r: APIError)
        ensures
            r@ == APIErrorView::Unauthorized(message@),
    {
        APIError::Unauthorized(String::from_str(message))
    }

    /// A rejected credential or an exceeded limit, with the given message.
    pub fn forbidden(message: &str) -> (r: APIError)
        ensures
            r@ == APIErrorView::Forbidden(message@),
    {
        APIError::Forbidden(String::from_str(message))
    }

    /// An absent resource, with the given message.
    pub fn not_found(message: &str) -> (r: APIError)
        ensures
            r@ == APIErrorView::NotFound(message@),
    {
        APIError::NotFound(String::from_str(message))
    }

    /// A malfunction of the service, with the given message.
    pub fn internal(message: &str) -> (r: APIError)
        ensures
            r@ == APIErrorView::Internal(message@),
    {
        APIError::Internal(String::from_str(message))
    }
}

impl Clone for APIError {
    fn clone(&self) -> (r: Self)
        ensures
            r@ == self@,
    {
        match self {
            APIError::Sql(e) => APIError::Sql(*e),
            APIError::Multipart => APIError::Multipart,
            APIError::BadRequest(m) => APIError::BadRequest(m.clone()),
            APIError::Unauthorized(m) => APIError::Unauthorized(m.clone()),
            APIError::Forbidden(m) => APIError::Forbidden(m.clone()),
            APIError::NotFound(m) => APIError::NotFound(m.clone()),
            APIError::Internal(m) => APIError::Internal(m.clone()),
            APIError::Service(e) => APIError::Service(*e),
            APIError::Query => APIError::Query,
            APIError::Decode => APIError::Decode,
        }
    }
}

} // verus!
