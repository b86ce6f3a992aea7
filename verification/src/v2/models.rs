//! The payloads and the queries of the resource-nested API.

use vstd::prelude::*;
use vstd::std_specs::convert::FromSpecImpl;
use crate::models::{Meme, MemeOptions, MemeView, User, UserView};
use crate::tables::DEFAULT_LIMIT;

verus! {

/// A meme as the resource-nested API shows it: the uploader appears by id.
#[derive(Debug, PartialEq, Eq)]
pub struct V2Meme {
    pub id: i32,
    pub filename: String,
    pub ipfs: String,
    pub category: String,
    pub user: String,
    pub timestamp: i32,
}

/// A user as the resource-nested API shows it.
#[derive(Debug, PartialEq, Eq)]
pub struct V2User {
    pub id: String,
    pub name: String,
    pub dayuploads: i32,
}

/// The query parameters of a listing.
#[derive(Debug, PartialEq, Eq)]
pub struct MemeFilterQuery {
    pub category: Option<String>,
    pub user: Option<String>,
    pub search: Option<String>,
    pub limit: Option<i32>,
    pub after: Option<i32>,
}

/// What a directory of the file tree holds.
#[derive(Debug, PartialEq, Eq)]
pub struct CDNEntry {
    pub directories: Vec<String>,
    pub files: Vec<String>,
}

/// A file of the file tree.
#[derive(Debug, PartialEq, Eq)]
pub struct CDNFile {
    pub cid: String,
    pub filename: String,
}

impl V2Meme {
    /// Whether this payload shows the stored meme `meme`.
    pub open spec fn shows(&self, meme: MemeView) -> bool {
        &&& self.id == meme.id
        &&& self.filename@ == meme.filename
        &&& self.ipfs@ == meme.ipfs
        &&& self.category@ == meme.category
        &&& self.user@ == meme.userid
        &&& self.timestamp == meme.timestamp
    }
}

impl V2User {
    /// Whether this payload shows the user `user`.
    pub open spec fn shows(&self, user: UserView) -> bool {
        &&& self.id@ == user.id
        &&& self.name@ == user.name
        &&& self.dayuploads == user.dayuploads
    }
}

impl From<Meme> for V2Meme {
    fn from(meme: Meme) -> (r: Self)
        ensures
            r.shows(meme@),
    {
        Self {
            id: meme.id,
            filename: meme.filename,
            category: meme.category,
            user: meme.userid,
            timestamp: meme.timestamp,
            ipfs: meme.ipfs,
        }
    }
}

impl FromSpecImpl<Meme> for V2Meme {
    open spec fn obeys_from_spec() -> bool {
        true
    }

    open spec fn from_spec(meme: Meme) -> Self {
        Self {
            id: meme.id,
            filename: meme.filename,
            category: meme.category,
            user: meme.userid,
            timestamp: meme.timestamp,
            ipfs: meme.ipfs,
        }
    }
}

impl From<User> for V2User {
    fn from(user: User) -> (r: Self)
        ensures
            r.shows(user@),
    {
        Self { id: user.id, name: user.name, dayuploads: user.dayuploads }
    }
}

impl FromSpecImpl<User> for V2User {
    open spec fn obeys_from_spec() -> bool {
        true
    }

    open spec fn from_spec(user: User) -> Self {
        Self { id: user.id, name: user.name, dayuploads: user.dayuploads }
    }
}

impl From<MemeFilterQuery> for MemeOptions {
    /// The filter of a listing: the user is named by id, and a missing limit
    /// is the default limit.
    fn from(query: MemeFilterQuery) -> (r: Self) {
        Self {
            category: query.category,
            user_id: query.user,
            username: None,
            search: query.search,
            limit: Some(
                match query.limit {
                    Some(limit) => limit,
                    None => DEFAULT_LIMIT,
                },
            ),
            after: query.after,
        }
    }
}

impl FromSpecImpl<MemeFilterQuery> for MemeOptions {
    open spec fn obeys_from_spec() -> bool {
        true
    }

    open spec fn from_spec(query: MemeFilterQuery) -> Self {
        Self {
            category: query.category,
            user_id: query.user,
            username: None,
            search: query.search,
            limit: Some(
                match query.limit {
                    Some(limit) => limit,
                    None => DEFAULT_LIMIT,
                },
            ),
            after: query.after,
        }
    }
}

} // verus!
