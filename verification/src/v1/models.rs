//! The envelopes and the queries of the path-shallow API.

use vstd::prelude::*;
use vstd::std_specs::convert::FromSpecImpl;
use crate::models::{Category, Meme, MemeOptions, User, UserIdentifier};
use crate::status::HttpStatus;
use crate::text::{concat, decimal, decimal_text};

verus! {

/// A meme as the path-shallow API shows it: numbers as decimal text, and a
/// public link in place of the file name.
#[derive(Debug, PartialEq, Eq)]
pub struct V1Meme {
    pub id: String,
    pub link: String,
    pub category: String,
    pub user: String,
    pub timestamp: String,
    pub ipfs: String,
}

/// The mathematical value of a [`V1Meme`].
pub struct V1MemeView {
    pub id: Seq<char>,
    pub link: Seq<char>,
    pub category: Seq<char>,
    pub user: Seq<char>,
    pub timestamp: Seq<char>,
    pub ipfs: Seq<char>,
}

impl View for V1Meme {
    type V = V1MemeView;

    open spec fn view(&self) -> V1MemeView {
        V1MemeView {
            id: self.id@,
            link: self.link@,
            category: self.category@,
            user: self.user@,
            timestamp: self.timestamp@,
            ipfs: self.ipfs@,
        }
    }
}

impl DeepView for V1Meme {
    type V = V1MemeView;

    open spec fn deep_view(&self) -> V1MemeView {
        self@
    }
}

/// The public link of a file: the base address, the uploader's directory and
/// the file name, joined by slashes.
pub open spec fn public_link(cdn: Seq<char>, userdir: Seq<char>, filename: Seq<char>) -> Seq<char> {
    cdn + "/"@ + userdir + "/"@ + filename
}

/// The public link of a file.
pub fn make_link(cdn: &str, userdir: &str, filename: &str) -> (r: String)
    ensures
        r@ == public_link(cdn@, userdir@, filename@),
{
    let head = concat(cdn, "/");
    let dir = concat(head.as_str(), userdir);
    let dir = concat(dir.as_str(), "/");
    concat(dir.as_str(), filename)
}

impl V1Meme {
    /// The value that [`V1Meme::new`] gives.
    pub open spec fn spec_new(meme: crate::models::MemeView, cdn: Seq<char>) -> V1MemeView {
        V1MemeView {
            id: decimal(meme.id),
            link: public_link(cdn, meme.userid, meme.filename),
            category: meme.category,
            user: meme.username,
            timestamp: decimal(meme.timestamp),
            ipfs: meme.ipfs,
        }
    }

    /// Shows a stored meme under the base address `cdn`.
    pub fn new(meme: Meme, cdn: String) -> (r: Self)
        ensures
            r@ == Self::spec_new(meme@, cdn@),
    {
        Self {
            id: decimal_text(meme.id as i64),
            link: make_link(cdn.as_str(), meme.userid.as_str(), meme.filename.as_str()),
            category: meme.category,
            user: meme.username,
            timestamp: decimal_text(meme.timestamp as i64),
            ipfs: meme.ipfs,
        }
    }
}

/// The envelope of a list of memes.
#[derive(Debug, PartialEq, Eq)]
pub struct MemesResponse {
    pub status: i32,
    pub error: Option<String>,
    pub memes: Option<Vec<V1Meme>>,
}

/// The envelope of one meme.
#[derive(Debug, PartialEq, Eq)]
pub struct MemeResponse {
    pub status: i32,
    pub error: Option<String>,
    pub meme: Option<V1Meme>,
}

/// The envelope of the list of categories.
#[derive(Debug, PartialEq, Eq)]
pub struct CategoriesResponse {
    pub status: i32,
    pub error: Option<String>,
    pub categories: Option<Vec<Category>>,
}

/// The envelope of one category.
#[derive(Debug, PartialEq, Eq)]
pub struct CategoryResponse {
    pub status: i32,
    pub error: Option<String>,
    pub category: Option<Category>,
}

/// The envelope of the list of users.
#[derive(Debug, PartialEq, Eq)]
pub struct UsersResponse {
    pub status: i32,
    pub error: Option<String>,
    pub users: Option<Vec<User>>,
}

/// The envelope of one user.
#[derive(Debug, PartialEq, Eq)]
pub struct UserResponse {
    pub status: i32,
    pub error: Option<String>,
    pub user: Option<User>,
}

/// The envelope of a finished upload: the public links of the stored files
/// and the token that was sent.
#[derive(Debug, PartialEq, Eq)]
pub struct UploadResponse {
    pub status: i32,
    pub error: Option<String>,
    pub files: Option<Vec<String>>,
    pub token: String,
}

/// The mathematical value of an [`UploadResponse`].
pub struct UploadResponseView {
    pub status: int,
    pub error: Option<Seq<char>>,
    pub files: Option<Seq<Seq<char>>>,
    pub token: Seq<char>,
}

impl View for UploadResponse {
    type V = UploadResponseView;

    open spec fn view(&self) -> UploadResponseView {
        UploadResponseView {
            status: self.status as int,
            error: self.error.deep_view(),
            files: self.files.deep_view(),
            token: self.token@,
        }
    }
}

/// The envelope of a failure.
#[derive(Debug, PartialEq, Eq)]
pub struct ErrorResponse {
    pub status: HttpStatus,
    pub error: String,
}

/// The query that names a text id.
#[derive(Debug, PartialEq, Eq)]
pub struct IDQuery {
    pub id: String,
}

/// The query that names a meme.
#[derive(Clone, Copy, Debug, PartialEq, Eq)]
pub struct MemeIDQuery {
    pub id: i32,
}

/// The query that names a user by id, by token or by name.
#[derive(Debug, PartialEq, Eq)]
pub struct UserIDQuery {
    pub id: Option<String>,
    pub token: Option<String>,
    pub name: Option<String>,
}

/// The query parameters of a listing: the category, a part of the uploader's
/// name, and a part of the file name.
#[derive(Debug, PartialEq, Eq)]
pub struct MemeFilter {
    pub category: Option<String>,
    pub user: Option<String>,
    pub search: Option<String>,
}

impl From<MemeFilter> for MemeOptions {
    /// The filter of a listing: the user is named by a part of the name, and
    /// neither a limit nor a cursor is set.
    fn from(query: MemeFilter) -> (r: Self) {
        Self {
            category: query.category,
            user_id: None,
            username: query.user,
            search: query.search,
            limit: None,
            after: None,
        }
    }
}

impl FromSpecImpl<MemeFilter> for MemeOptions {
    open spec fn obeys_from_spec() -> bool {
        true
    }

    open spec fn from_spec(query: MemeFilter) -> Self {
        Self {
            category: query.category,
            user_id: None,
            username: query.user,
            search: query.search,
            limit: None,
            after: None,
        }
    }
}

impl From<UserIDQuery> for UserIdentifier {
    /// The first parameter that is present decides: the id, then the token,
    /// then the name.
    fn from(query: UserIDQuery) -> (r: Self) {
        if let Some(id) = query.id {
            Self::Id(id)
        } else if let Some(token) = query.token {
            Self::Token(token)
        } else if let Some(name) = query.name {
            Self::Username(name)
        } else {
            Self::Null
        }
    }
}

impl FromSpecImpl<UserIDQuery> for UserIdentifier {
    open spec fn obeys_from_spec() -> bool {
        true
    }

    open spec fn from_spec(query: UserIDQuery) -> Self {
        if let Some(id) = query.id {
            Self::Id(id)
        } else if let Some(token) = query.token {
            Self::Token(token)
        } else if let Some(name) = query.name {
            Self::Username(name)
        } else {
            Self::Null
        }
    }
}

impl MemesResponse {
    /// The envelope of a failure: its status, its message, and no payload.
    pub fn rejected(error: ErrorResponse) -> (r: Self)
        ensures
            r.status == error.status.code(),
            r.error.deep_view() == Some(error.error@),
            r.memes is None,
    {
        Self { status: error.status.as_u16() as i32, error: Some(error.error), memes: None }
    }
}

impl MemeResponse {
    /// The envelope of a failure: its status, its message, and no payload.
    pub fn rejected(error: ErrorResponse) -> (r: Self)
        ensures
            r.status == error.status.code(),
            r.error.deep_view() == Some(error.error@),
            r.meme is None,
    {
        Self { status: error.status.as_u16() as i32, error: Some(error.error), meme: None }
    }
}

impl CategoriesResponse {
    /// The envelope of a failure: its status, its message, and no payload.
    pub fn rejected(error: ErrorResponse) -> (r: Self)
        ensures
            r.status == error.status.code(),
            r.error.deep_view() == Some(error.error@),
            r.categories is None,
    {
        Self { status: error.status.as_u16() as i32, error: Some(error.error), categories: None }
    }
}

impl CategoryResponse {
    /// The envelope of a failure: its status, its message, and no payload.
    pub fn rejected(error: ErrorResponse) -> (r: Self)
        ensures
            r.status == error.status.code(),
            r.error.deep_view() == Some(error.error@),
            r.category is None,
    {
        Self { status: error.status.as_u16() as i32, error: Some(error.error), category: None }
    }
}

impl UsersResponse {
    /// The envelope of a failure: its status, its message, and no payload.
    pub fn rejected(error: ErrorResponse) -> (r: Self)
        ensures
            r.status == error.status.code(),
            r.error.deep_view() == Some(error.error@),
            r.users is None,
    {
        Self { status: error.status.as_u16() as i32, error: Some(error.error), users: None }
    }
}

impl UserResponse {
    /// The envelope of a failure: its status, its message, and no payload.
    pub fn rejected(error: ErrorResponse) -> (r: Self)
        ensures
            r.status == error.status.code(),
            r.error.deep_view() == Some(error.error@),
            r.user is None,
    {
        Self { status: error.status.as_u16() as i32, error: Some(error.error), user: None }
    }
}

impl UploadResponse {
    /// The envelope of a failure: its status, its message, and no payload.
    pub fn rejected(error: ErrorResponse, token: String) -> (r: Self)
        ensures
            r.status == error.status.code(),
            r.error.deep_view() == Some(error.error@),
            r.files is None,
            r.token@ == token@,
    {
        Self { status: error.status.as_u16() as i32, error: Some(error.error), files: None, token }
    }
}

} // verus!
