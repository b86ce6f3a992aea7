//! The entities of the service and the filter of a meme query.

use vstd::prelude::*;

verus! {

/// A stored meme, joined with the name of its uploader.
#[derive(Debug, PartialEq, Eq)]
pub struct Meme {
    pub id: i32,
    pub filename: String,
    pub userid: String,
    pub username: String,
    pub category: String,
    pub timestamp: i32,
    pub ipfs: String,
}

/// The mathematical value of a [`Meme`].
pub struct MemeView {
    pub id: int,
    pub filename: Seq<char>,
    pub userid: Seq<char>,
    pub username: Seq<char>,
    pub category: Seq<char>,
    pub timestamp: int,
    pub ipfs: Seq<char>,
}

impl View for Meme {
    type V = MemeView;

    open spec fn view(&self) -> MemeView {
        MemeView {
            id: self.id as int,
            filename: self.filename@,
            userid: self.userid@,
            username: self.username@,
            category: self.category@,
            timestamp: self.timestamp as int,
            ipfs: self.ipfs@,
        }
    }
}

impl DeepView for Meme {
    type V = MemeView;

    open spec fn deep_view(&self) -> MemeView {
        self@
    }
}

impl Clone for Meme {
    fn clone(&self) -> (r: Self)
        ensures
            r@ == self@,
    {
        Meme {
            id: self.id,
            filename: self.filename.clone(),
            userid: self.userid.clone(),
            username: self.username.clone(),
            category: self.category.clone(),
            timestamp: self.timestamp,
            ipfs: self.ipfs.clone(),
        }
    }
}

/// A category: a short slug and its display label.
#[derive(Debug, PartialEq, Eq)]
pub struct Category {
    pub id: String,
    pub name: String,
}

/// The mathematical value of a [`Category`].
pub struct CategoryView {
    pub id: Seq<char>,
    pub name: Seq<char>,
}

impl View for Category {
    type V = CategoryView;

    open spec fn view(&self) -> CategoryView {
        CategoryView { id: self.id@, name: self.name@ }
    }
}

impl DeepView for Category {
    type V = CategoryView;

    open spec fn deep_view(&self) -> CategoryView {
        self@
    }
}

impl Clone for Category {
    fn clone(&self) -> (r: Self)
        ensures
            r@ == self@,
    {
        Category { id: self.id.clone(), name: self.name.clone() }
    }
}

/// A user as the service reports it: the upload token appears only as a hash,
/// and `dayuploads` counts the memes that the user stored today.
#[derive(Debug, PartialEq, Eq)]
pub struct User {
    pub id: String,
    pub name: String,
    pub userdir: String,
    pub tokenhash: String,
    pub dayuploads: i32,
}

/// The mathematical value of a [`User`].
pub struct UserView {
    pub id: Seq<char>,
    pub name: Seq<char>,
    pub userdir: Seq<char>,
    pub tokenhash: Seq<char>,
    pub dayuploads: int,
}

impl View for User {
    type V = UserView;

    open spec fn view(&self) -> UserView {
        UserView {
            id: self.id@,
            name: self.name@,
            userdir: self.userdir@,
            tokenhash: self.tokenhash@,
            dayuploads: self.dayuploads as int,
        }
    }
}

impl DeepView for User {
    type V = UserView;

    open spec fn deep_view(&self) -> UserView {
        self@
    }
}

impl Clone for User {
    fn clone(&self) -> (r: Self)
        ensures
            r@ == self@,
    {
        User {
            id: self.id.clone(),
            name: self.name.clone(),
            userdir: self.userdir.clone(),
            tokenhash: self.tokenhash.clone(),
            dayuploads: self.dayuploads,
        }
    }
}

/// The answer of a counting query.
#[derive(Clone, Copy, Debug, PartialEq, Eq)]
pub struct Count {
    pub count: i64,
}

/// The way a request names a user. Of the raw query parameters the first that is
/// present decides: the id, then the token, then the name; with none of them the
/// request names the anonymous user.
#[derive(Debug, PartialEq, Eq)]
pub enum UserIdentifier {
    Id(String),
    Token(String),
    Username(String),
    Null,
}

/// The mathematical value of a [`UserIdentifier`].
pub enum UserIdentifierView {
    Id(Seq<char>),
    Token(Seq<char>),
    Username(Seq<char>),
    Null,
}

impl View for UserIdentifier {
    type V = UserIdentifierView;

    open spec fn view(&self) -> UserIdentifierView {
        match self {
            UserIdentifier::Id(id) => UserIdentifierView::Id(id@),
            UserIdentifier::Token(token) => UserIdentifierView::Token(token@),
            UserIdentifier::Username(name) => UserIdentifierView::Username(name@),
            UserIdentifier::Null => UserIdentifierView::Null,
        }
    }
}

/// The filter of a meme query. A field that is `None` restricts nothing.
#[derive(Debug, PartialEq, Eq)]
pub struct MemeOptions {
    pub category: Option<String>,
    pub user_id: Option<String>,
    pub username: Option<String>,
    pub search: Option<String>,
    pub limit: Option<i32>,
    pub after: Option<i32>,
}

/// The mathematical value of a [`MemeOptions`].
pub struct MemeOptionsView {
    pub category: Option<Seq<char>>,
    pub user_id: Option<Seq<char>>,
    pub username: Option<Seq<char>>,
    pub search: Option<Seq<char>>,
    pub limit: Option<int>,
    pub after: Option<int>,
}

impl MemeOptionsView {
    /// The filter that restricts nothing.
    pub open spec fn empty() -> MemeOptionsView {
        MemeOptionsView {
            category: None,
            user_id: None,
            username: None,
            search: None,
            limit: None,
            after: None,
        }
    }
}

/// The value of an optional number.
pub open spec fn number_view(n: Option<i32>) -> Option<int> {
    match n {
        Some(v) => Some(v as int),
        None => None,
    }
}

impl View for MemeOptions {
    type V = MemeOptionsView;

    open spec fn view(&self) -> MemeOptionsView {
        MemeOptionsView {
            category: self.category.deep_view(),
            user_id: self.user_id.deep_view(),
            username: self.username.deep_view(),
            search: self.search.deep_view(),
            limit: number_view(self.limit),
            after: number_view(self.after),
        }
    }
}

impl MemeOptions {
    /// The filter that restricts nothing.
    pub fn empty() -> (r: Self)
        ensures
            r@ == MemeOptionsView::empty(),
    {
        Self { category: None, user_id: None, username: None, search: None, limit: None, after: None }
    }
}

} // verus!
