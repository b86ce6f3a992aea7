//! HTTP status codes and their reason phrases.

use vstd::prelude::*;
use crate::text::{concat3, decimal, decimal_text};

verus! {

/// The reason phrase that the `http` crate's table gives for a status code, if
/// it has one.
pub uninterp spec fn reason_phrase(code: u16) -> Option<Seq<char>>;

/// Calls `StatusCode::from_u16` and then `StatusCode::canonical_reason` of the
/// `http` crate, through hyper's re-export. Trusted: the result is the table's
/// phrase for the code, and the table holds "Bad Request" for 400, "Not Found"
/// for 404 and "Internal Server Error" for 500. Codes that `from_u16` rejects
/// are left out.
#[verifier::external_body]
fn canonical_reason(code: u16) -> (r: Option<String>)
    requires
        100 <= code < 1000,
    ensures
        r.deep_view() == reason_phrase(code),
        code == 400 ==> r.deep_view() == Some("Bad Request"@),
        code == 404 ==> r.deep_view() == Some("Not Found"@),
        code == 500 ==> r.deep_view() == Some("Internal Server Error"@),
{
    match hyper::StatusCode::from_u16(code) {
        Ok(status) => status.canonical_reason().map(String::from),
        Err(_) => None,
    }
}

/// An HTTP status code: a number from 100 to 999.
#[derive(Clone, Copy, Debug, PartialEq, Eq)]
pub struct HttpStatus {
    code: u16,
}

impl HttpStatus {
    #[verifier::type_invariant]
    spec fn in_range(self) -> bool {
        100 <= self.code < 1000
    }

    /// The number of the status.
    pub closed spec fn code(self) -> u16 {
        self.code
    }

    /// The status with the given number, if the number is one: at least 100
    /// and below 1000.
    pub fn from_u16(code: u16) -> (r: Option<HttpStatus>)
        ensures
            r is Some <==> 100 <= code < 1000,
            r matches Some(s) ==> s.code() == code,
    {
        if 100 <= code && code < 1000 {
            Some(HttpStatus { code })
        } else {
            None
        }
    }

    /// The number of the status.
    pub fn as_u16(&self) -> (r: u16)
        ensures
            r == self.code(),
            100 <= r < 1000,
    {
        proof {
            use_type_invariant(self);
        }
        self.code
    }

    /// 200 OK.
    pub fn ok() -> (r: HttpStatus)
        ensures
            r.code() == 200,
    {
        HttpStatus { code: 200 }
    }

    /// 201 Created.
    pub fn created() -> (r: HttpStatus)
        ensures
            r.code() == 201,
    {
        HttpStatus { code: 201 }
    }

    /// 400 Bad Request.
    pub fn bad_request() -> (r: HttpStatus)
        ensures
            r.code() == 400,
    {
        HttpStatus { code: 400 }
    }

    /// 401 Unauthorized.
    pub fn unauthorized() -> (r: HttpStatus)
        ensures
            r.code() == 401,
    {
        HttpStatus { code: 401 }
    }

    /// 403 Forbidden.
    pub fn forbidden() -> (r: HttpStatus)
        ensures
            r.code() == 403,
    {
        HttpStatus { code: 403 }
    }

    /// 404 Not Found.
    pub fn not_found() -> (r: HttpStatus)
        ensures
            r.code() == 404,
    {
        HttpStatus { code: 404 }
    }

    /// 500 Internal Server Error.
    pub fn internal_server_error() -> (r: HttpStatus)
        ensures
            r.code() == 500,
    {
        HttpStatus { code: 500 }
    }

    /// Whether the status is one of 200 to 299.
    pub fn is_success(&self) -> (r: bool)
        ensures
            r == (200 <= self.code() < 300),
    {
        200 <= self.code && self.code < 300
    }

    /// The reason phrase of the status, or the empty text where it has none.
    pub fn reason(&self) -> (r: String)
        ensures
            r@ == reason_or_empty(self.code()),
            self.code() == 400 ==> r@ == "Bad Request"@,
            self.code() == 404 ==> r@ == "Not Found"@,
            self.code() == 500 ==> r@ == "Internal Server Error"@,
    {
        proof {
            use_type_invariant(self);
        }
        match canonical_reason(self.code) {
            Some(phrase) => phrase,
            None => String::new(),
        }
    }

    /// The status as a response line shows it: the number, a space, and the
    /// reason phrase or a placeholder.
    pub fn text(&self) -> (r: String)
        ensures
            r@ == status_line(self.code()),
    {
        proof {
            use_type_invariant(self);
        }
        status_text(self.code, canonical_reason(self.code))
    }
}

/// The number of a status, a space, and the given reason phrase; a
/// placeholder stands for a missing phrase.
pub open spec fn line_of(code: u16, phrase: Option<Seq<char>>) -> Seq<char> {
    decimal(code as int) + " "@ + match phrase {
        Some(p) => p,
        None => "<unknown status code>"@,
    }
}

/// The line of a status with the given reason phrase.
pub fn status_text(code: u16, phrase: Option<String>) -> (r: String)
    ensures
        r@ == line_of(code, phrase.deep_view()),
{
    let number = decimal_text(code as i64);
    match phrase {
        Some(p) => concat3(number.as_str(), " ", p.as_str()),
        None => concat3(number.as_str(), " ", "<unknown status code>"),
    }
}

/// The reason phrase of a code, or the empty text where it has none.
pub open spec fn reason_or_empty(code: u16) -> Seq<char> {
    match reason_phrase(code) {
        Some(phrase) => phrase,
        None => Seq::empty(),
    }
}

/// The number of a status, a space, and its reason phrase; a placeholder
/// stands for a missing phrase.
pub open spec fn status_line(code: u16) -> Seq<char> {
    line_of(code, reason_phrase(code))
}

} // verus!
