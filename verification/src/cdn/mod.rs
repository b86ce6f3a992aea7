//! The file endpoint: the bytes of a meme, straight from the blob gateway.
//!
//! The embedding program decodes the file name with [`decode_filename`],
//! resolves the content id, fetches the object from the blob gateway, and
//! forms the headers of its answer with [`image`]; the bytes pass through
//! unbuffered.

pub mod error;
pub mod sql;
pub mod templates;

use vstd::prelude::*;
use vstd::string::*;
use crate::cdn::error::{CDNError, CDNErrorView};
use crate::codec::{decode, percent_decoded};
use crate::text::concat;

verus! {

/// The content type that `new_mime_guess` guesses for a path from its
/// extension; `application/octet-stream` where it knows none.
pub uninterp spec fn guessed_type(path: Seq<char>) -> Seq<char>;

/// Calls `new_mime_guess::from_path` and then `first_or_octet_stream`, and
/// takes the text of the result. Trusted: the result is the guess for the
/// path; no file is read.
#[verifier::external_body]
fn guess_type(path: &str) -> (r: String)
    ensures
        r@ == guessed_type(path@),
{
    new_mime_guess::from_path(path).first_or_octet_stream().to_string()
}

/// Whether a character may stand in a header value: no control character but
/// the tab.
pub open spec fn header_char(c: char) -> bool {
    (c as u32 >= 32 && c as u32 != 127) || c as u32 == 9
}

/// Whether a text may stand in a header value.
pub open spec fn header_text(text: Seq<char>) -> bool {
    forall|i: int| 0 <= i < text.len() ==> header_char(#[trigger] text[i])
}

/// Whether a text may stand in a header value.
pub fn is_header_text(text: &str) -> (r: bool)
    ensures
        r == header_text(text@),
{
    let n = text.unicode_len();
    let mut i: usize = 0;
    while i < n
        invariant
            i <= n,
            n == text@.len(),
            forall|k: int| 0 <= k < i ==> header_char(#[trigger] text@[k]),
        decreases n - i,
    {
        let c = text.get_char(i) as u32;
        if !((c >= 32 && c != 127) || c == 9) {
            return false;
        }
        i = i + 1;
    }
    true
}

/// The headers of a served file.
#[derive(Debug, PartialEq, Eq)]
pub struct ImageHeaders {
    /// `Content-Type`: guessed from the file name.
    pub content_type: String,
    /// `Content-Length`: the length that the blob gateway declared.
    pub content_length: String,
    /// `X-Ipfs-Path`: where the object lives in the blob store.
    pub ipfs_path: String,
}

/// The path of an object in the blob store.
pub open spec fn ipfs_path(cid: Seq<char>) -> Seq<char> {
    "/ipfs/"@ + cid
}

/// The file name that a path segment stands for. Fails with
/// [`CDNError::Decode`] where the segment does not decode to UTF-8.
pub fn decode_filename(segment: &str) -> (r: Result<String, CDNError>)
    ensures
        match r {
            Ok(filename) => percent_decoded(segment@) == Some(filename@),
            Err(e) => percent_decoded(segment@) is None && e@ == CDNErrorView::Decode,
        },
{
    match decode(segment) {
        Some(filename) => Ok(filename),
        None => Err(CDNError::Decode),
    }
}

/// The headers for a file with the given content type: the length is the one
/// that the gateway declared, and the path names the content id. Fails with
/// [`CDNError::Internal`] where the gateway declared no length, or where the
/// path cannot stand in a header.
pub fn image_headers(cid: &str, content_type: String, declared_length: Option<String>) -> (r:
    Result<ImageHeaders, CDNError>)
    ensures
        match r {
            Ok(headers) => {
                &&& declared_length is Some
                &&& header_text(ipfs_path(cid@))
                &&& headers.content_type@ == content_type@
                &&& headers.content_length@ == declared_length->0@
                &&& headers.ipfs_path@ == ipfs_path(cid@)
            },
            Err(e) => {
                &&& declared_length is None || !header_text(ipfs_path(cid@))
                &&& e@ == CDNErrorView::Internal
            },
        },
{
    let path = concat("/ipfs/", cid);
    match declared_length {
        None => Err(CDNError::Internal),
        Some(content_length) => {
            if is_header_text(path.as_str()) {
                Ok(ImageHeaders { content_type, content_length, ipfs_path: path })
            } else {
                Err(CDNError::Internal)
            }
        },
    }
}

/// The headers with which the file `filename` with the content id `cid` is
/// served, given the length that the blob gateway declared for it: the content
/// type is the guess for the file name.
pub fn image(filename: &str, cid: &str, declared_length: Option<String>) -> (r: Result<
    ImageHeaders,
    CDNError,
>)
    ensures
        match r {
            Ok(headers) => {
                &&& declared_length is Some
                &&& header_text(ipfs_path(cid@))
                &&& headers.content_type@ == guessed_type(filename@)
                &&& headers.content_length@ == declared_length->0@
                &&& headers.ipfs_path@ == ipfs_path(cid@)
            },
            Err(e) => {
                &&& declared_length is None || !header_text(ipfs_path(cid@))
                &&& e@ == CDNErrorView::Internal
            },
        },
{
    image_headers(cid, guess_type(filename), declared_length)
}

} // verus!
