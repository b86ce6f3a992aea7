//! The failures of the file endpoint.

use vstd::prelude::*;
use crate::error::{ServiceError, ServiceErrorView, SqlError};
use crate::status::HttpStatus;

verus! {

/// Why a file could not be served.
#[derive(Clone, Copy, Debug, PartialEq, Eq)]
pub enum CDNError {
    /// The store failed, or holds no such file.
    Sql(SqlError),
    /// The blob gateway failed.
    Service(ServiceError),
    /// The file name did not decode to UTF-8.
    Decode,
    /// The blob gateway broke its contract, or a header could not be formed.
    Internal,
}

/// The mathematical value of a [`CDNError`].
pub enum CDNErrorView {
    Sql(SqlError),
    Service(ServiceErrorView),
    Decode,
    Internal,
}

impl View for CDNError {
    type V = CDNErrorView;

    open spec fn view(&self) -> CDNErrorView {
        match self {
            CDNError::Sql(e) => CDNErrorView::Sql(*e),
            CDNError::Service(e) => CDNErrorView::Service(e@),
            CDNError::Decode => CDNErrorView::Decode,
            CDNError::Internal => CDNErrorView::Internal,
        }
    }
}

/// The status with which a failure of the file endpoint is answered: 404 for
/// an absent row, 500 for everything else.
pub open spec fn cdn_status(error: CDNErrorView) -> u16 {
    match error {
        CDNErrorView::Sql(SqlError::RowNotFound) => 404,
        _ => 500,
    }
}

impl CDNError {
    /// The status with which this failure is answered; the answer has no body.
    pub fn into_response(self) -> (r: HttpStatus)
        ensures
            r.code() == cdn_status(self@),
    {
        match self {
            CDNError::Sql(SqlError::RowNotFound) => HttpStatus::not_found(),
            _ => HttpStatus::internal_server_error(),
        }
    }
}

} // verus!
