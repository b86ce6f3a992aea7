//! How a failure is answered: the status and the message of its envelope.

use vstd::prelude::*;
use crate::error::{APIError, APIErrorView, ServiceError, ServiceErrorView, SqlError};
use crate::status::{reason_or_empty, status_line, HttpStatus};
use crate::text::concat;
use crate::v1::models::ErrorResponse;

verus! {

/// The message for a failed call to the blob gateway or the chat bridge. It
/// names what failed and shows no detail but an unexpected status.
pub open spec fn service_message(error: ServiceErrorView) -> Seq<char> {
    match error {
        ServiceErrorView::Reqwest => "Reqwest error"@,
        ServiceErrorView::Url => "URL parse error"@,
        ServiceErrorView::InvalidResponse(code) => "Invalid response code: "@ + status_line(code),
    }
}

/// The status and the message with which a failure is answered. An absent
/// row is 404; every other failure of the store is 500, without its detail.
pub open spec fn error_envelope(error: APIErrorView) -> (u16, Seq<char>) {
    match error {
        APIErrorView::Sql(SqlError::RowNotFound) => (404, "Not Found"@),
        APIErrorView::Sql(SqlError::Other) => (500, "Internal Server Error"@),
        APIErrorView::Multipart => (400, "Invalid Multipart Form"@),
        APIErrorView::BadRequest(message) => (400, message),
        APIErrorView::Unauthorized(message) => (401, message),
        APIErrorView::Forbidden(message) => (403, message),
        APIErrorView::NotFound(message) => (404, message),
        APIErrorView::Internal(message) => (500, message),
        APIErrorView::Service(error) => (500, service_message(error)),
        APIErrorView::Query => (400, "Bad Request"@),
        APIErrorView::Decode => (400, "Bad Request"@),
    }
}

impl ErrorResponse {
    /// The envelope of a failure with the given status: the message where one
    /// is given, the reason phrase `reason` where none is.
    pub fn with_reason(status: HttpStatus, message: Option<String>, reason: String) -> (r: Self)
        ensures
            r.status.code() == status.code(),
            r.error@ == match message {
                Some(m) => m@,
                None => reason@,
            },
    {
        let error = match message {
            Some(m) => m,
            None => reason,
        };
        Self { status, error }
    }

    /// The envelope of a failure with the given status. Where no message is
    /// given, the reason phrase of the status stands in.
    pub fn new(status: HttpStatus, message: Option<String>) -> (r: Self)
        ensures
            r.status.code() == status.code(),
            r.error@ == match message {
                Some(m) => m@,
                None => reason_or_empty(status.code()),
            },
            message is None && status.code() == 400 ==> r.error@ == "Bad Request"@,
            message is None && status.code() == 404 ==> r.error@ == "Not Found"@,
            message is None && status.code() == 500 ==> r.error@ == "Internal Server Error"@,
    {
        let reason = status.reason();
        Self::with_reason(status, message, reason)
    }
}

impl ServiceError {
    /// The message that a client sees of this failure.
    pub fn get_response_message(&self) -> (r: String)
        ensures
            r@ == service_message(self@),
    {
        match self {
            ServiceError::Reqwest => String::from_str("Reqwest error"),
            ServiceError::Url => String::from_str("URL parse error"),
            ServiceError::InvalidResponse(code) => concat(
                "Invalid response code: ",
                code.text().as_str(),
            ),
        }
    }
}

impl APIError {
    /// The envelope with which this failure is answered.
    pub fn into_response(self) -> (r: ErrorResponse)
        ensures
            (r.status.code(), r.error@) == error_envelope(self@),
    {
        match self {
            APIError::Sql(err) => match err {
                SqlError::RowNotFound => ErrorResponse::new(HttpStatus::not_found(), None),
                SqlError::Other => ErrorResponse::new(HttpStatus::internal_server_error(), None),
            },
            APIError::Multipart => ErrorResponse::new(
                HttpStatus::bad_request(),
                Some(String::from_str("Invalid Multipart Form")),
            ),
            APIError::BadRequest(err) => ErrorResponse::new(HttpStatus::bad_request(), Some(err)),
            APIError::Unauthorized(err) => ErrorResponse::new(
                HttpStatus::unauthorized(),
                Some(err),
            ),
            APIError::Forbidden(err) => ErrorResponse::new(HttpStatus::forbidden(), Some(err)),
            APIError::NotFound(err) => ErrorResponse::new(HttpStatus::not_found(), Some(err)),
            APIError::Internal(err) => ErrorResponse::new(
                HttpStatus::internal_server_error(),
                Some(err),
            ),
            APIError::Service(err) => ErrorResponse::new(
                HttpStatus::internal_server_error(),
                Some(err.get_response_message()),
            ),
            APIError::Query => ErrorResponse::new(HttpStatus::bad_request(), None),
            APIError::Decode => ErrorResponse::new(HttpStatus::bad_request(), None),
        }
    }
}

} // verus!
