//! The decisions of the path-shallow endpoints.
//!
//! An upload is a conversation: the embedding program reads the multipart
//! form, talks to the blob gateway, the relational store and the chat bridge,
//! and reports each outcome as an [`UploadEvent`]; [`Upload::step`] answers
//! with the next [`UploadAction`]. The first action of every upload is
//! [`UploadAction::NextField`].

use vstd::prelude::*;
use crate::error::{APIError, APIErrorView};
use crate::ipfs::{IPFSFile, IPFSFileView};
use crate::models::{Category, CategoryView, User, UserView};
use crate::text::same_text;
use crate::error::SqlError;
use crate::models::Meme;
use crate::v1::models::{
    make_link, public_link, CategoriesResponse, CategoryResponse, MemeResponse, MemesResponse,
    UploadResponse, UploadResponseView, UserResponse, UsersResponse, V1Meme,
};

verus! {

/// The most memes that a user may store in one day.
pub const DAILY_UPLOAD_LIMIT: i32 = 20;

/// Where an upload stands.
#[derive(Clone, Copy, Debug, PartialEq, Eq, Structural)]
pub enum UploadPhase {
    /// The next field of the form, or its end, is awaited.
    Fields,
    /// The text of the token field is awaited.
    Token,
    /// The text of the category field is awaited.
    Category,
    /// The blob gateway's answer for a file field is awaited.
    Storing,
    /// The user of the token is awaited.
    Authenticating,
    /// The category is awaited.
    ResolvingCategory,
    /// The id of the row of the current file is awaited.
    Inserting,
    /// The pin of the current file is awaited.
    Pinning,
    /// The chat notification for the current file is awaited.
    Notifying,
    /// The request is answered.
    Done,
}

/// What the embedding program reports.
#[derive(Debug, PartialEq, Eq)]
pub enum UploadEvent {
    /// The form holds another field, with this name and this file name.
    Field { name: Option<String>, file_name: Option<String> },
    /// The form holds no further field.
    EndOfForm,
    /// The text of the current field.
    Text(String),
    /// The blob gateway stored the current field.
    Stored(IPFSFile),
    /// The user that the token resolves to, if any.
    User(Option<User>),
    /// The category of the requested id, if any.
    Category(Option<Category>),
    /// The id of the inserted row; 0 where no row was inserted.
    Inserted(i32),
    /// The blob gateway pinned the file.
    Pinned,
    /// The chat bridge took the notification.
    Notified,
    /// The last action failed.
    Failed(APIError),
}

/// The mathematical value of an [`UploadEvent`].
pub enum UploadEventView {
    Field { name: Option<Seq<char>>, file_name: Option<Seq<char>> },
    EndOfForm,
    Text(Seq<char>),
    Stored(IPFSFileView),
    User(Option<UserView>),
    Category(Option<CategoryView>),
    Inserted(int),
    Pinned,
    Notified,
    Failed(APIErrorView),
}

impl View for UploadEvent {
    type V = UploadEventView;

    open spec fn view(&self) -> UploadEventView {
        match self {
            UploadEvent::Field { name, file_name } => UploadEventView::Field {
                name: name.deep_view(),
                file_name: file_name.deep_view(),
            },
            UploadEvent::EndOfForm => UploadEventView::EndOfForm,
            UploadEvent::Text(t) => UploadEventView::Text(t@),
            UploadEvent::Stored(f) => UploadEventView::Stored(f@),
            UploadEvent::User(u) => UploadEventView::User(u.deep_view()),
            UploadEvent::Category(c) => UploadEventView::Category(c.deep_view()),
            UploadEvent::Inserted(id) => UploadEventView::Inserted(*id as int),
            UploadEvent::Pinned => UploadEventView::Pinned,
            UploadEvent::Notified => UploadEventView::Notified,
            UploadEvent::Failed(e) => UploadEventView::Failed(e@),
        }
    }
}

/// What the embedding program is to do next.
#[allow(inconsistent_fields)]
#[derive(Debug, PartialEq, Eq)]
pub enum UploadAction {
    /// Read the next field of the form.
    NextField,
    /// Read the current field as text.
    ReadText,
    /// Send the bytes of the current field to the blob gateway, unpinned, under
    /// this file name.
    Store { filename: String },
    /// Look up the user of this token.
    CheckToken { token: String },
    /// Look up the category of this id.
    GetCategory { id: String },
    /// Insert the row of this file, for this user, in this category, sent from
    /// this address.
    Insert { user: User, file: IPFSFile, ip: String, category: Category },
    /// Ask the blob gateway to pin this content id.
    Pin { cid: String },
    /// Tell the chat bridge of the stored meme.
    Notify { category: String, filename: String, cid: String, user: String, id: i32 },
    /// Answer 201 Created with this envelope.
    Respond(UploadResponse),
    /// Answer with this failure.
    Fail(APIError),
}

/// The mathematical value of an [`UploadAction`].
#[allow(inconsistent_fields)]
pub enum UploadActionView {
    NextField,
    ReadText,
    Store { filename: Seq<char> },
    CheckToken { token: Seq<char> },
    GetCategory { id: Seq<char> },
    Insert { user: UserView, file: IPFSFileView, ip: Seq<char>, category: CategoryView },
    Pin { cid: Seq<char> },
    Notify { category: Seq<char>, filename: Seq<char>, cid: Seq<char>, user: Seq<char>, id: int },
    Respond(UploadResponseView),
    Fail(APIErrorView),
}

impl View for UploadAction {
    type V = UploadActionView;

    open spec fn view(&self) -> UploadActionView {
        match self {
            UploadAction::NextField => UploadActionView::NextField,
            UploadAction::ReadText => UploadActionView::ReadText,
            UploadAction::Store { filename } => UploadActionView::Store { filename: filename@ },
            UploadAction::CheckToken { token } => UploadActionView::CheckToken { token: token@ },
            UploadAction::GetCategory { id } => UploadActionView::GetCategory { id: id@ },
            UploadAction::Insert { user, file, ip, category } => UploadActionView::Insert {
                user: user@,
                file: file@,
                ip: ip@,
                category: category@,
            },
            UploadAction::Pin { cid } => UploadActionView::Pin { cid: cid@ },
            UploadAction::Notify { category, filename, cid, user, id } => UploadActionView::Notify {
                category: category@,
                filename: filename@,
                cid: cid@,
                user: user@,
                id: *id as int,
            },
            UploadAction::Respond(r) => UploadActionView::Respond(r@),
            UploadAction::Fail(e) => UploadActionView::Fail(e@),
        }
    }
}

/// The mathematical value of an [`Upload`].
pub struct UploadView {
    pub phase: UploadPhase,
    /// The text of the token field, once it was read.
    pub token: Option<Seq<char>>,
    /// The text of the category field, once it was read.
    pub category: Option<Seq<char>>,
    /// The files that the blob gateway stored, in the order of their fields.
    pub files: Seq<IPFSFileView>,
    /// The user of the token, once the upload was admitted.
    pub user: Option<UserView>,
    /// The category, once it was found.
    pub cat: Option<CategoryView>,
    /// How many files are persisted, pinned and announced.
    pub next: int,
    /// The id of the row of the current file.
    pub inserted: int,
    /// The public links of the files that are done.
    pub links: Seq<Seq<char>>,
    /// The address of the client.
    pub ip: Seq<char>,
    /// The base address of the public links.
    pub cdn: Seq<char>,
}

impl UploadView {
    /// The state before the first field was read.
    pub open spec fn initial(ip: Seq<char>, cdn: Seq<char>) -> UploadView {
        UploadView {
            phase: UploadPhase::Fields,
            token: None,
            category: None,
            files: Seq::empty(),
            user: None,
            cat: None,
            next: 0,
            inserted: 0,
            links: Seq::empty(),
            ip,
            cdn,
        }
    }

    /// The state with the request answered.
    pub open spec fn done(self) -> UploadView {
        UploadView { phase: UploadPhase::Done, ..self }
    }

    /// The request ends with this failure.
    pub open spec fn fail(self, error: APIErrorView) -> (UploadView, UploadActionView) {
        (self.done(), UploadActionView::Fail(error))
    }

    /// Whether the user is known and the whole batch fits into what is left of
    /// the day's limit.
    pub open spec fn admitted(self) -> bool {
        &&& self.user is Some
        &&& self.user->0.dayuploads + self.files.len() <= DAILY_UPLOAD_LIMIT
    }

    /// Whether all that the persisting phases read is there: the token, the
    /// user, the category and a current file.
    pub open spec fn ready(self) -> bool {
        &&& self.token is Some
        &&& self.user is Some
        &&& self.cat is Some
        &&& 0 <= self.next < self.files.len()
    }

    /// A field of the form arrived.
    pub open spec fn on_field(self, name: Option<Seq<char>>, file_name: Option<Seq<char>>) -> (
        UploadView,
        UploadActionView,
    ) {
        match name {
            None => self.fail(
                APIErrorView::BadRequest("A multipart-form field is missing a name"@),
            ),
            Some(n) => if n == "token"@ {
                (UploadView { phase: UploadPhase::Token, ..self }, UploadActionView::ReadText)
            } else if n == "category"@ {
                (UploadView { phase: UploadPhase::Category, ..self }, UploadActionView::ReadText)
            } else if n == "file"@ || n == "file[]"@ {
                match file_name {
                    None => self.fail(APIErrorView::BadRequest("A file field has no filename"@)),
                    Some(filename) => (
                        UploadView { phase: UploadPhase::Storing, ..self },
                        UploadActionView::Store { filename },
                    ),
                }
            } else {
                (self, UploadActionView::NextField)
            },
        }
    }

    /// The form ended.
    pub open spec fn on_end_of_form(self) -> (UploadView, UploadActionView) {
        match self.token {
            None => self.fail(APIErrorView::Unauthorized("Missing token"@)),
            Some(token) => match self.category {
                None => self.fail(APIErrorView::BadRequest("Missing category"@)),
                Some(_) => (
                    UploadView { phase: UploadPhase::Authenticating, ..self },
                    UploadActionView::CheckToken { token },
                ),
            },
        }
    }

    /// The lookup of the token ended.
    pub open spec fn on_user(self, user: Option<UserView>) -> (UploadView, UploadActionView) {
        match user {
            None => self.fail(APIErrorView::Forbidden("token not existing"@)),
            Some(u) => if u.dayuploads + self.files.len() > DAILY_UPLOAD_LIMIT {
                self.fail(APIErrorView::Forbidden("Upload limit reached"@))
            } else {
                match self.category {
                    None => self.fail(APIErrorView::BadRequest("Missing category"@)),
                    Some(id) => (
                        UploadView { phase: UploadPhase::ResolvingCategory, user: Some(u), ..self },
                        UploadActionView::GetCategory { id },
                    ),
                }
            },
        }
    }

    /// The next file is to be persisted, or the request is answered where none
    /// is left.
    pub open spec fn persist_next(self) -> (UploadView, UploadActionView) {
        if self.ready() {
            (
                UploadView { phase: UploadPhase::Inserting, ..self },
                UploadActionView::Insert {
                    user: self.user->0,
                    file: self.files[self.next],
                    ip: self.ip,
                    category: self.cat->0,
                },
            )
        } else if self.token is Some && self.next == self.files.len() {
            (
                self.done(),
                UploadActionView::Respond(
                    UploadResponseView {
                        status: 201,
                        error: None,
                        files: Some(self.links),
                        token: self.token->0,
                    },
                ),
            )
        } else {
            self.unexpected()
        }
    }

    /// The lookup of the category ended.
    pub open spec fn on_category(self, category: Option<CategoryView>) -> (
        UploadView,
        UploadActionView,
    ) {
        match category {
            None => self.fail(APIErrorView::BadRequest("Category not existing"@)),
            Some(c) => UploadView { cat: Some(c), ..self }.persist_next(),
        }
    }

    /// The insertion ended.
    pub open spec fn on_inserted(self, id: int) -> (UploadView, UploadActionView) {
        if id == 0 {
            self.fail(APIErrorView::Internal("Database insertion error"@))
        } else if self.ready() {
            (
                UploadView { phase: UploadPhase::Pinning, inserted: id, ..self },
                UploadActionView::Pin { cid: self.files[self.next].hash },
            )
        } else {
            self.unexpected()
        }
    }

    /// The pin ended.
    pub open spec fn on_pinned(self) -> (UploadView, UploadActionView) {
        if self.ready() {
            (
                UploadView { phase: UploadPhase::Notifying, ..self },
                UploadActionView::Notify {
                    category: self.cat->0.id,
                    filename: self.files[self.next].name,
                    cid: self.files[self.next].hash,
                    user: self.user->0.id,
                    id: self.inserted,
                },
            )
        } else {
            self.unexpected()
        }
    }

    /// The notification ended: the file is done.
    pub open spec fn on_notified(self) -> (UploadView, UploadActionView) {
        if self.ready() {
            UploadView {
                next: self.next + 1,
                links: self.links.push(
                    public_link(self.cdn, self.user->0.id, self.files[self.next].name),
                ),
                ..self
            }.persist_next()
        } else {
            self.unexpected()
        }
    }

    /// An event arrived that the phase does not await.
    pub open spec fn unexpected(self) -> (UploadView, UploadActionView) {
        self.fail(APIErrorView::Internal("Unexpected event"@))
    }

    /// The next state and the next action, for the state `self` and the event
    /// `event`.
    pub open spec fn step(self, event: UploadEventView) -> (UploadView, UploadActionView) {
        match event {
            UploadEventView::Failed(error) => self.fail(error),
            UploadEventView::Field { name, file_name } => if self.phase == UploadPhase::Fields {
                self.on_field(name, file_name)
            } else {
                self.unexpected()
            },
            UploadEventView::EndOfForm => if self.phase == UploadPhase::Fields {
                self.on_end_of_form()
            } else {
                self.unexpected()
            },
            UploadEventView::Text(text) => if self.phase == UploadPhase::Token {
                (
                    UploadView { phase: UploadPhase::Fields, token: Some(text), ..self },
                    UploadActionView::NextField,
                )
            } else if self.phase == UploadPhase::Category {
                (
                    UploadView { phase: UploadPhase::Fields, category: Some(text), ..self },
                    UploadActionView::NextField,
                )
            } else {
                self.unexpected()
            },
            UploadEventView::Stored(file) => if self.phase == UploadPhase::Storing {
                (
                    UploadView { phase: UploadPhase::Fields, files: self.files.push(file), ..self },
                    UploadActionView::NextField,
                )
            } else {
                self.unexpected()
            },
            UploadEventView::User(user) => if self.phase == UploadPhase::Authenticating {
                self.on_user(user)
            } else {
                self.unexpected()
            },
            UploadEventView::Category(category) => if self.phase
                == UploadPhase::ResolvingCategory {
                self.on_category(category)
            } else {
                self.unexpected()
            },
            UploadEventView::Inserted(id) => if self.phase == UploadPhase::Inserting {
                self.on_inserted(id)
            } else {
                self.unexpected()
            },
            UploadEventView::Pinned => if self.phase == UploadPhase::Pinning {
                self.on_pinned()
            } else {
                self.unexpected()
            },
            UploadEventView::Notified => if self.phase == UploadPhase::Notifying {
                self.on_notified()
            } else {
                self.unexpected()
            },
        }
    }
}

/// The state of one upload request.
#[derive(Debug, PartialEq, Eq)]
pub struct Upload {
    phase: UploadPhase,
    token: Option<String>,
    category: Option<String>,
    files: Vec<IPFSFile>,
    user: Option<User>,
    cat: Option<Category>,
    next: usize,
    inserted: i32,
    links: Vec<String>,
    ip: String,
    cdn: String,
}

impl View for Upload {
    type V = UploadView;

    closed spec fn view(&self) -> UploadView {
        UploadView {
            phase: self.phase,
            token: self.token.deep_view(),
            category: self.category.deep_view(),
            files: self.files.deep_view(),
            user: self.user.deep_view(),
            cat: self.cat.deep_view(),
            next: self.next as int,
            inserted: self.inserted as int,
            links: self.links.deep_view(),
            ip: self.ip@,
            cdn: self.cdn@,
        }
    }
}

/// Whether `text` is the word `word`.
fn is_word(text: &String, word: &str) -> (r: bool)
    ensures
        r == (text@ == word@),
{
    let w = String::from_str(word);
    same_text(text, &w)
}

impl Upload {
    /// The upload of a client at the address `ip`, whose public links start
    /// with `cdn`. Its first action is [`UploadAction::NextField`].
    pub fn new(ip: String, cdn: String) -> (r: Upload)
        ensures
            r@ == UploadView::initial(ip@, cdn@),
    {
        let r = Upload {
            phase: UploadPhase::Fields,
            token: None,
            category: None,
            files: Vec::new(),
            user: None,
            cat: None,
            next: 0,
            inserted: 0,
            links: Vec::new(),
            ip,
            cdn,
        };
        assert(r.files.deep_view() =~= Seq::empty());
        assert(r.links.deep_view() =~= Seq::empty());
        r
    }

    /// Where the upload stands.
    pub fn phase(&self) -> (r: UploadPhase)
        ensures
            r == self@.phase,
    {
        self.phase
    }

    /// Whether the request is answered.
    pub fn is_done(&self) -> (r: bool)
        ensures
            r == (self@.phase == UploadPhase::Done),
    {
        self.phase == UploadPhase::Done
    }

    fn fail(self, error: APIError) -> (r: (Upload, UploadAction))
        ensures
            (r.0@, r.1@) == self@.fail(error@),
    {
        (Upload { phase: UploadPhase::Done, ..self }, UploadAction::Fail(error))
    }

    fn unexpected(self) -> (r: (Upload, UploadAction))
        ensures
            (r.0@, r.1@) == self@.unexpected(),
    {
        self.fail(APIError::internal("Unexpected event"))
    }

    fn on_field(self, name: Option<String>, file_name: Option<String>) -> (r: (
        Upload,
        UploadAction,
    ))
        ensures
            (r.0@, r.1@) == self@.on_field(name.deep_view(), file_name.deep_view()),
    {
        match name {
            None => self.fail(APIError::bad_request("A multipart-form field is missing a name")),
            Some(n) => {
                if is_word(&n, "token") {
                    (Upload { phase: UploadPhase::Token, ..self }, UploadAction::ReadText)
                } else if is_word(&n, "category") {
                    (Upload { phase: UploadPhase::Category, ..self }, UploadAction::ReadText)
                } else if is_word(&n, "file") || is_word(&n, "file[]") {
                    match file_name {
                        None => self.fail(APIError::bad_request("A file field has no filename")),
                        Some(filename) => (
                            Upload { phase: UploadPhase::Storing, ..self },
                            UploadAction::Store { filename },
                        ),
                    }
                } else {
                    (self, UploadAction::NextField)
                }
            },
        }
    }

    fn on_end_of_form(self) -> (r: (Upload, UploadAction))
        ensures
            (r.0@, r.1@) == self@.on_end_of_form(),
    {
        if self.token.is_none() {
            return self.fail(APIError::unauthorized("Missing token"));
        }
        if self.category.is_none() {
            return self.fail(APIError::bad_request("Missing category"));
        }
        let token = match &self.token {
            Some(t) => t.clone(),
            None => String::new(),
        };
        (Upload { phase: UploadPhase::Authenticating, ..self }, UploadAction::CheckToken { token })
    }

    /// Whether a user who stored `dayuploads` memes today may not store
    /// `batch` more.
    fn over_limit(dayuploads: i32, batch: usize) -> (r: bool)
        ensures
            r == (dayuploads + batch > DAILY_UPLOAD_LIMIT),
    {
        let left: i64 = DAILY_UPLOAD_LIMIT as i64 - dayuploads as i64;
        left < 0 || batch as u64 > left as u64
    }

    fn on_user(self, user: Option<User>) -> (r: (Upload, UploadAction))
        ensures
            (r.0@, r.1@) == self@.on_user(user.deep_view()),
    {
        match user {
            None => self.fail(APIError::forbidden("token not existing")),
            Some(u) => {
                if Self::over_limit(u.dayuploads, self.files.len()) {
                    return self.fail(APIError::forbidden("Upload limit reached"));
                }
                if self.category.is_none() {
                    return self.fail(APIError::bad_request("Missing category"));
                }
                let id = match &self.category {
                    Some(c) => c.clone(),
                    None => String::new(),
                };
                (
                    Upload { phase: UploadPhase::ResolvingCategory, user: Some(u), ..self },
                    UploadAction::GetCategory { id },
                )
            },
        }
    }

    /// Whether the token, the user, the category and a current file are there.
    fn ready(&self) -> (r: bool)
        ensures
            r == self@.ready(),
    {
        self.token.is_some() && self.user.is_some() && self.cat.is_some() && self.next
            < self.files.len()
    }

    fn persist_next(self) -> (r: (Upload, UploadAction))
        ensures
            (r.0@, r.1@) == self@.persist_next(),
    {
        if self.ready() {
            let user = match &self.user {
                Some(u) => u.clone(),
                None => User {
                    id: String::new(),
                    name: String::new(),
                    userdir: String::new(),
                    tokenhash: String::new(),
                    dayuploads: 0,
                },
            };
            let category = match &self.cat {
                Some(c) => c.clone(),
                None => Category { id: String::new(), name: String::new() },
            };
            let file = self.files[self.next].clone();
            let ip = self.ip.clone();
            (
                Upload { phase: UploadPhase::Inserting, ..self },
                UploadAction::Insert { user, file, ip, category },
            )
        } else if self.token.is_some() && self.next == self.files.len() {
            let token = match &self.token {
                Some(t) => t.clone(),
                None => String::new(),
            };
            let mut links: Vec<String> = Vec::new();
            let mut i: usize = 0;
            while i < self.links.len()
                invariant
                    i <= self.links.len(),
                    links.deep_view() =~= self.links.deep_view().take(i as int),
                decreases self.links.len() - i,
            {
                let ghost copied = links.deep_view();
                let link = self.links[i].clone();
                links.push(link);
                assert(links.deep_view() =~= copied.push(link@));
                i = i + 1;
            }
            assert(links.deep_view() =~= self.links.deep_view());
            (
                Upload { phase: UploadPhase::Done, ..self },
                UploadAction::Respond(
                    UploadResponse { status: 201, error: None, files: Some(links), token },
                ),
            )
        } else {
            self.unexpected()
        }
    }

    fn on_category(self, category: Option<Category>) -> (r: (Upload, UploadAction))
        ensures
            (r.0@, r.1@) == self@.on_category(category.deep_view()),
    {
        match category {
            None => self.fail(APIError::bad_request("Category not existing")),
            Some(c) => Upload { cat: Some(c), ..self }.persist_next(),
        }
    }

    fn on_inserted(self, id: i32) -> (r: (Upload, UploadAction))
        ensures
            (r.0@, r.1@) == self@.on_inserted(id as int),
    {
        if id == 0 {
            self.fail(APIError::internal("Database insertion error"))
        } else if self.ready() {
            let cid = self.files[self.next].hash.clone();
            (Upload { phase: UploadPhase::Pinning, inserted: id, ..self }, UploadAction::Pin { cid })
        } else {
            self.unexpected()
        }
    }

    fn on_pinned(self) -> (r: (Upload, UploadAction))
        ensures
            (r.0@, r.1@) == self@.on_pinned(),
    {
        if self.ready() {
            let category = match &self.cat {
                Some(c) => c.id.clone(),
                None => String::new(),
            };
            let user = match &self.user {
                Some(u) => u.id.clone(),
                None => String::new(),
            };
            let filename = self.files[self.next].name.clone();
            let cid = self.files[self.next].hash.clone();
            let id = self.inserted;
            (
                Upload { phase: UploadPhase::Notifying, ..self },
                UploadAction::Notify { category, filename, cid, user, id },
            )
        } else {
            self.unexpected()
        }
    }

    fn on_notified(self) -> (r: (Upload, UploadAction))
        ensures
            (r.0@, r.1@) == self@.on_notified(),
    {
        if self.ready() {
            let link = match &self.user {
                Some(u) => make_link(
                    self.cdn.as_str(),
                    u.id.as_str(),
                    self.files[self.next].name.as_str(),
                ),
                None => String::new(),
            };
            assert(self.next < self.files.len());
            let ghost before = self.links.deep_view();
            let mut links = self.links;
            links.push(link);
            assert(links.deep_view() =~= before.push(link@));
            Upload { next: self.next + 1, links, ..self }.persist_next()
        } else {
            self.unexpected()
        }
    }

    /// Takes an event and says what to do next.
    ///
    /// A failure of the embedding's last action ends the request with that
    /// failure. An event that the phase does not await ends it with an
    /// internal error. Otherwise the upload goes on as
    /// [`UploadView::step`] says.
    pub fn step(self, event: UploadEvent) -> (r: (Upload, UploadAction))
        ensures
            (r.0@, r.1@) == self@.step(event@),
    {
        match event {
            UploadEvent::Failed(error) => self.fail(error),
            UploadEvent::Field { name, file_name } => {
                if self.phase == UploadPhase::Fields {
                    self.on_field(name, file_name)
                } else {
                    self.unexpected()
                }
            },
            UploadEvent::EndOfForm => {
                if self.phase == UploadPhase::Fields {
                    self.on_end_of_form()
                } else {
                    self.unexpected()
                }
            },
            UploadEvent::Text(text) => {
                if self.phase == UploadPhase::Token {
                    (
                        Upload { phase: UploadPhase::Fields, token: Some(text), ..self },
                        UploadAction::NextField,
                    )
                } else if self.phase == UploadPhase::Category {
                    (
                        Upload { phase: UploadPhase::Fields, category: Some(text), ..self },
                        UploadAction::NextField,
                    )
                } else {
                    self.unexpected()
                }
            },
            UploadEvent::Stored(file) => {
                if self.phase == UploadPhase::Storing {
                    let ghost before = self.files.deep_view();
                    let mut files = self.files;
                    files.push(file);
                    assert(files.deep_view() =~= before.push(file@));
                    (Upload { phase: UploadPhase::Fields, files, ..self }, UploadAction::NextField)
                } else {
                    self.unexpected()
                }
            },
            UploadEvent::User(user) => {
                if self.phase == UploadPhase::Authenticating {
                    self.on_user(user)
                } else {
                    self.unexpected()
                }
            },
            UploadEvent::Category(category) => {
                if self.phase == UploadPhase::ResolvingCategory {
                    self.on_category(category)
                } else {
                    self.unexpected()
                }
            },
            UploadEvent::Inserted(id) => {
                if self.phase == UploadPhase::Inserting {
                    self.on_inserted(id)
                } else {
                    self.unexpected()
                }
            },
            UploadEvent::Pinned => {
                if self.phase == UploadPhase::Pinning {
                    self.on_pinned()
                } else {
                    self.unexpected()
                }
            },
            UploadEvent::Notified => {
                if self.phase == UploadPhase::Notifying {
                    self.on_notified()
                } else {
                    self.unexpected()
                }
            },
        }
    }
}

impl UploadView {
    /// The state after the events `events`, taken in order.
    pub open spec fn after(self, events: Seq<UploadEventView>) -> UploadView
        decreases events.len(),
    {
        if events.len() == 0 {
            self
        } else {
            self.step(events[0]).0.after(events.drop_first())
        }
    }

    /// What holds of every state that an upload reaches: from the lookup of the
    /// category on, the batch is admitted.
    pub open spec fn within_limit(self) -> bool {
        (self.phase == UploadPhase::ResolvingCategory || self.phase == UploadPhase::Inserting
            || self.phase == UploadPhase::Pinning || self.phase == UploadPhase::Notifying)
            ==> self.admitted()
    }
}

/// A step keeps the limit: where the batch was admitted before the persisting
/// phases, it still is after any event.
pub proof fn lemma_step_keeps_limit(state: UploadView, event: UploadEventView)
    requires
        state.within_limit(),
    ensures
        state.step(event).0.within_limit(),
{
}

/// Every state that an upload reaches from its start is within the limit.
pub proof fn lemma_reachable_is_within_limit(ip: Seq<char>, cdn: Seq<char>, events: Seq<UploadEventView>)
    ensures
        UploadView::initial(ip, cdn).after(events).within_limit(),
{
    lemma_after_keeps_limit(UploadView::initial(ip, cdn), events);
}

/// Any run of events keeps the limit.
pub proof fn lemma_after_keeps_limit(state: UploadView, events: Seq<UploadEventView>)
    requires
        state.within_limit(),
    ensures
        state.after(events).within_limit(),
    decreases events.len(),
{
    if events.len() > 0 {
        lemma_step_keeps_limit(state, events[0]);
        lemma_after_keeps_limit(state.step(events[0]).0, events.drop_first());
    }
}

/// The limit is checked once, on the whole batch, before any row of it is
/// inserted: whatever events an upload has seen, it asks for an insertion only
/// for the user that it admitted, and only where that user's uploads of the
/// day and all files of the request together stay within the limit.
pub proof fn lemma_insert_only_when_admitted(
    ip: Seq<char>,
    cdn: Seq<char>,
    events: Seq<UploadEventView>,
    event: UploadEventView,
)
    ensures
        ({
            let state = UploadView::initial(ip, cdn).after(events);
            state.step(event).1 matches UploadActionView::Insert { user, .. } ==> {
                &&& state.user == Some(user)
                &&& user.dayuploads + state.files.len() <= DAILY_UPLOAD_LIMIT
            }
        }),
{
    lemma_reachable_is_within_limit(ip, cdn, events);
}

/// Once the form has ended, the batch is fixed: no event adds a file to it,
/// takes one from it, or changes the token, and once the user is looked up,
/// the user stays. So the limit that was checked on the whole batch holds of
/// all that is inserted afterwards.
pub proof fn lemma_batch_is_fixed_after_the_form(state: UploadView, event: UploadEventView)
    requires
        state.phase != UploadPhase::Fields,
        state.phase != UploadPhase::Token,
        state.phase != UploadPhase::Category,
        state.phase != UploadPhase::Storing,
    ensures
        state.step(event).0.files == state.files,
        state.step(event).0.token == state.token,
        state.phase != UploadPhase::Authenticating ==> state.step(event).0.user == state.user,
        state.step(event).0.phase != UploadPhase::Fields,
        state.step(event).0.phase != UploadPhase::Token,
        state.step(event).0.phase != UploadPhase::Category,
        state.step(event).0.phase != UploadPhase::Storing,
{
}

/// A batch that does not fit is refused as a whole: the answer is Forbidden,
/// and the request is over.
pub proof fn lemma_over_limit_is_refused(state: UploadView, user: UserView)
    requires
        state.phase == UploadPhase::Authenticating,
        user.dayuploads + state.files.len() > DAILY_UPLOAD_LIMIT,
    ensures
        state.step(UploadEventView::User(Some(user))) == (
            state.done(),
            UploadActionView::Fail(APIErrorView::Forbidden("Upload limit reached"@)),
        ),
{
}

/// An answered request stays answered: whatever events follow, no further
/// action is asked for but to fail, so nothing is inserted, pinned or
/// announced after a refusal.
pub proof fn lemma_done_is_final(
    state: UploadView,
    events: Seq<UploadEventView>,
    event: UploadEventView,
)
    requires
        state.phase == UploadPhase::Done,
    ensures
        state.after(events).phase == UploadPhase::Done,
        state.after(events).step(event).1 is Fail,
    decreases events.len(),
{
    if events.len() > 0 {
        lemma_done_is_final(state.step(events[0]).0, events.drop_first(), event);
    }
}

/// A form that ends without a token is answered Unauthorized, whatever files
/// the blob gateway has stored by then; no action takes them back.
pub proof fn lemma_missing_token_is_unauthorized(state: UploadView)
    requires
        state.phase == UploadPhase::Fields,
        state.token is None,
    ensures
        state.step(UploadEventView::EndOfForm) == (
            state.done(),
            UploadActionView::Fail(APIErrorView::Unauthorized("Missing token"@)),
        ),
{
}

/// Answers the request for one meme: the meme under the base address `cdn`,
/// "Meme not found" where the store holds none, the store's failure otherwise.
pub fn meme(found: Result<Option<Meme>, SqlError>, cdn: String) -> (r: Result<
    MemeResponse,
    APIError,
>)
    ensures
        match found {
            Ok(Some(m)) => r matches Ok(resp) && resp.status == 200 && resp.error is None
                && resp.meme.deep_view() == Some(V1Meme::spec_new(m@, cdn@)),
            Ok(None) => r matches Err(e) && e@ == APIErrorView::NotFound("Meme not found"@),
            Err(failure) => r matches Err(e) && e@ == APIErrorView::Sql(failure),
        },
{
    match found {
        Ok(Some(m)) => Ok(
            MemeResponse { status: 200, error: None, meme: Some(V1Meme::new(m, cdn)) },
        ),
        Ok(None) => Err(APIError::not_found("Meme not found")),
        Err(failure) => Err(APIError::Sql(failure)),
    }
}

/// Answers the request for a listing: each meme under the base address
/// `cdn`, in the order in which the store returned them.
pub fn memes(found: Result<Vec<Meme>, SqlError>, cdn: String) -> (r: Result<
    MemesResponse,
    APIError,
>)
    ensures
        match found {
            Ok(rows) => {
                &&& r matches Ok(resp)
                &&& resp.status == 200
                &&& resp.error is None
                &&& resp.memes matches Some(list)
                &&& list.len() == rows.len()
                &&& forall|i: int|
                    0 <= i < list.len() ==> (#[trigger] list[i])@ == V1Meme::spec_new(
                        rows[i]@,
                        cdn@,
                    )
            },
            Err(failure) => r matches Err(e) && e@ == APIErrorView::Sql(failure),
        },
{
    match found {
        Ok(rows) => {
            let mut list: Vec<V1Meme> = Vec::new();
            let mut i: usize = 0;
            while i < rows.len()
                invariant
                    i <= rows.len(),
                    list.len() == i,
                    forall|k: int|
                        0 <= k < i ==> (#[trigger] list[k])@ == V1Meme::spec_new(rows[k]@, cdn@),
                decreases rows.len() - i,
            {
                list.push(V1Meme::new(rows[i].clone(), cdn.clone()));
                i = i + 1;
            }
            Ok(MemesResponse { status: 200, error: None, memes: Some(list) })
        },
        Err(failure) => Err(APIError::Sql(failure)),
    }
}

/// Answers the request for one category: "Category not found" where the
/// store holds none.
pub fn category(found: Result<Option<Category>, SqlError>) -> (r: Result<
    CategoryResponse,
    APIError,
>)
    ensures
        match found {
            Ok(Some(c)) => r matches Ok(resp) && resp.status == 200 && resp.error is None
                && resp.category == Some(c),
            Ok(None) => r matches Err(e) && e@ == APIErrorView::NotFound("Category not found"@),
            Err(failure) => r matches Err(e) && e@ == APIErrorView::Sql(failure),
        },
{
    match found {
        Ok(Some(c)) => Ok(CategoryResponse { status: 200, error: None, category: Some(c) }),
        Ok(None) => Err(APIError::not_found("Category not found")),
        Err(failure) => Err(APIError::Sql(failure)),
    }
}

/// Answers the request for all categories.
pub fn categories(found: Result<Vec<Category>, SqlError>) -> (r: Result<
    CategoriesResponse,
    APIError,
>)
    ensures
        match found {
            Ok(list) => r matches Ok(resp) && resp.status == 200 && resp.error is None
                && resp.categories == Some(list),
            Err(failure) => r matches Err(e) && e@ == APIErrorView::Sql(failure),
        },
{
    match found {
        Ok(list) => Ok(CategoriesResponse { status: 200, error: None, categories: Some(list) }),
        Err(failure) => Err(APIError::Sql(failure)),
    }
}

/// Answers the request for one user: "User not found" where the identifier
/// resolves to none.
pub fn user(found: Result<Option<User>, SqlError>) -> (r: Result<UserResponse, APIError>)
    ensures
        match found {
            Ok(Some(u)) => r matches Ok(resp) && resp.status == 200 && resp.error is None
                && resp.user == Some(u),
            Ok(None) => r matches Err(e) && e@ == APIErrorView::NotFound("User not found"@),
            Err(failure) => r matches Err(e) && e@ == APIErrorView::Sql(failure),
        },
{
    match found {
        Ok(Some(u)) => Ok(UserResponse { status: 200, error: None, user: Some(u) }),
        Ok(None) => Err(APIError::not_found("User not found")),
        Err(failure) => Err(APIError::Sql(failure)),
    }
}

/// Answers the request for all users.
pub fn users(found: Result<Vec<User>, SqlError>) -> (r: Result<UsersResponse, APIError>)
    ensures
        match found {
            Ok(list) => r matches Ok(resp) && resp.status == 200 && resp.error is None
                && resp.users == Some(list),
            Err(failure) => r matches Err(e) && e@ == APIErrorView::Sql(failure),
        },
{
    match found {
        Ok(list) => Ok(UsersResponse { status: 200, error: None, users: Some(list) }),
        Err(failure) => Err(APIError::Sql(failure)),
    }
}

/// Answers the request for a random meme: the meme that the store drew,
/// under the base address `cdn`; the store's failure where it drew none.
pub fn random(found: Result<Meme, SqlError>, cdn: String) -> (r: Result<MemeResponse, APIError>)
    ensures
        match found {
            Ok(m) => r matches Ok(resp) && resp.status == 200 && resp.error is None
                && resp.meme.deep_view() == Some(V1Meme::spec_new(m@, cdn@)),
            Err(failure) => r matches Err(e) && e@ == APIErrorView::Sql(failure),
        },
{
    match found {
        Ok(m) => Ok(MemeResponse { status: 200, error: None, meme: Some(V1Meme::new(m, cdn)) }),
        Err(failure) => Err(APIError::Sql(failure)),
    }
}

} // verus!
