//! The address of the client, as the proxy in front of the service reports it.

use vstd::prelude::*;
use vstd::string::*;
use crate::status::HttpStatus;
use crate::text::{concat, concat3};

verus! {

/// The header in which the proxy names the client.
pub const FORWARDED_FOR: &'static str = "X-Forwarded-For";

/// Why the address of the client could not be read.
#[derive(Debug, PartialEq, Eq)]
pub enum ExtractError {
    /// The request lacks the header of this name.
    HeaderMissing(String),
    /// The header is no text; the detail says why.
    ToStr(String),
    /// The header names no address; the detail says why.
    IPParse(String),
}

/// The mathematical value of an [`ExtractError`].
pub enum ExtractErrorView {
    HeaderMissing(Seq<char>),
    ToStr(Seq<char>),
    IPParse(Seq<char>),
}

impl View for ExtractError {
    type V = ExtractErrorView;

    open spec fn view(&self) -> ExtractErrorView {
        match self {
            ExtractError::HeaderMissing(name) => ExtractErrorView::HeaderMissing(name@),
            ExtractError::ToStr(detail) => ExtractErrorView::ToStr(detail@),
            ExtractError::IPParse(detail) => ExtractErrorView::IPParse(detail@),
        }
    }
}

/// The message of a failure to read the client's address.
pub open spec fn extract_message(error: ExtractErrorView) -> Seq<char> {
    match error {
        ExtractErrorView::HeaderMissing(name) => "`"@ + name + "` header is missing"@,
        ExtractErrorView::ToStr(detail) => "Header value contains illegal character: "@ + detail,
        ExtractErrorView::IPParse(detail) => "Header value is not a valid IP address: "@ + detail,
    }
}

impl ExtractError {
    /// The message of this failure.
    pub fn message(&self) -> (r: String)
        ensures
            r@ == extract_message(self@),
    {
        match self {
            ExtractError::HeaderMissing(name) => concat3("`", name.as_str(), "` header is missing"),
            ExtractError::ToStr(detail) => concat(
                "Header value contains illegal character: ",
                detail.as_str(),
            ),
            ExtractError::IPParse(detail) => concat(
                "Header value is not a valid IP address: ",
                detail.as_str(),
            ),
        }
    }

    /// The answer to a request whose client cannot be told: 400, with the
    /// message as its body.
    pub fn into_response(self) -> (r: (HttpStatus, String))
        ensures
            r.0.code() == 400,
            r.1@ == extract_message(self@),
    {
        let body = self.message();
        (HttpStatus::bad_request(), body)
    }
}

/// Whether `at` is where the first comma of `text` stands, or the length of
/// `text` where it holds none.
pub open spec fn first_comma(text: Seq<char>, at: int) -> bool {
    &&& 0 <= at <= text.len()
    &&& forall|i: int| 0 <= i < at ==> text[i] != ','
    &&& at < text.len() ==> text[at] == ','
}

/// The first entry of a comma-separated header: the text before the first
/// comma, or the whole text where it holds none.
pub open spec fn first_entry(text: Seq<char>) -> Seq<char> {
    text.take(choose|at: int| first_comma(text, at))
}

/// There is one place of the first comma.
pub proof fn lemma_first_comma_unique(text: Seq<char>, a: int, b: int)
    requires
        first_comma(text, a),
        first_comma(text, b),
    ensures
        a == b,
{
    if a < b {
        assert(text[a] != ',');
    } else if b < a {
        assert(text[b] != ',');
    }
}

/// The text of the client's address.
#[derive(Debug, PartialEq, Eq)]
pub struct ExtractIP(pub String);

impl ExtractIP {
    /// The client of a request, from the value of its forwarding header: the
    /// first entry of the header, which names the client itself; the entries
    /// behind it name proxies. Fails where the header is missing.
    pub fn from_request(header: Option<&str>) -> (r: Result<ExtractIP, ExtractError>)
        ensures
            match header {
                Some(value) => r matches Ok(ip) && ip.0@ == first_entry(value@),
                None => r matches Err(e) && e@ == ExtractErrorView::HeaderMissing(
                    FORWARDED_FOR@,
                ),
            },
    {
        match header {
            None => Err(ExtractError::HeaderMissing(String::from_str(FORWARDED_FOR))),
            Some(value) => {
                let n = value.unicode_len();
                let mut at: usize = 0;
                while at < n && value.get_char(at) != ','
                    invariant
                        at <= n,
                        n == value@.len(),
                        forall|i: int| 0 <= i < at ==> value@[i] != ',',
                    decreases n - at,
                {
                    at = at + 1;
                }
                proof {
                    assert(first_comma(value@, at as int));
                    let chosen = choose|k: int| first_comma(value@, k);
                    lemma_first_comma_unique(value@, at as int, chosen);
                }
                let entry = value.substring_char(0, at);
                assert(entry@ =~= value@.take(at as int));
                Ok(ExtractIP(String::from_str(entry)))
            },
        }
    }
}

} // verus!
