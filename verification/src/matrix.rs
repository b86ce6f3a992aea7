//! The chat bridge: a stored meme is announced in a chat room, in the name of
//! its uploader.
//!
//! An announcement is a conversation of up to five requests. The embedding
//! program sends each [`MatrixRequest`] and reports the answer as a
//! [`NotifyEvent`]; [`Notification::step`] says what follows.

use vstd::prelude::*;
use crate::address::{endpoint, joined};
use crate::codec::{encode_text, percent_encoded};
use crate::error::{ServiceError, ServiceErrorView};
use crate::service::JMServiceInner;
use crate::status::HttpStatus;
use crate::text::{concat, concat3, decimal, decimal_text};

verus! {

/// The announcement of a meme.
#[derive(Debug, PartialEq, Eq)]
pub struct Meme {
    pub category: String,
    pub filename: String,
    pub cid: String,
}

/// The mathematical value of a [`Meme`].
pub struct MemeView {
    pub category: Seq<char>,
    pub filename: Seq<char>,
    pub cid: Seq<char>,
}

impl View for Meme {
    type V = MemeView;

    open spec fn view(&self) -> MemeView {
        MemeView { category: self.category@, filename: self.filename@, cid: self.cid@ }
    }
}

impl Clone for Meme {
    fn clone(&self) -> (r: Self)
        ensures
            r@ == self@,
    {
        Meme {
            category: self.category.clone(),
            filename: self.filename.clone(),
            cid: self.cid.clone(),
        }
    }
}

/// The id of a chat user.
#[derive(Debug, PartialEq, Eq)]
pub struct UserID {
    pub user_id: String,
}

/// The id of a chat room.
#[derive(Debug, PartialEq, Eq)]
pub struct RoomID {
    pub room_id: String,
}

/// The id of a chat event.
#[derive(Debug, PartialEq, Eq)]
pub struct EventID {
    pub event_id: String,
}

/// The registration of a chat user.
#[derive(Debug, PartialEq, Eq)]
pub struct RegisterRequest {
    pub reg_type: String,
    pub username: String,
}

impl RegisterRequest {
    /// The registration of `username` as a user of the bridge.
    pub fn new(username: String) -> (r: Self)
        ensures
            r.reg_type@ == "m.login.application_service"@,
            r.username@ == username@,
    {
        Self { reg_type: String::from_str("m.login.application_service"), username }
    }
}

/// The text that identifies the announcement of a meme by a user: the user,
/// the category, the file name and the content id, joined by slashes.
pub open spec fn transaction_text(user: Seq<char>, meme: MemeView) -> Seq<char> {
    user + "/"@ + meme.category + "/"@ + meme.filename + "/"@ + meme.cid
}

/// The chat id of a user name in a domain.
pub open spec fn chat_id(username: Seq<char>, domain: Seq<char>) -> Seq<char> {
    "@"@ + username + ":"@ + domain
}

/// The chat name of an uploader.
pub open spec fn chat_name(user: Seq<char>) -> Seq<char> {
    "jm_"@ + user
}

/// The path under which a meme is announced in a room.
pub open spec fn announce_path(room: Seq<char>, txid: Seq<char>) -> Seq<char> {
    "/_matrix/client/r0/rooms/"@ + room + "/send/es.jensmem.meme/"@ + txid
}

/// The path under which the announcement of the meme `id` is indexed in a
/// room.
pub open spec fn index_path(room: Seq<char>, id: int) -> Seq<char> {
    "/_matrix/client/r0/rooms/"@ + room + "/state/es.jensmem.index/"@ + decimal(id)
}

/// The path that tells who a chat user is.
pub open spec fn whoami_path() -> Seq<char> {
    "/_matrix/client/r0/account/whoami"@
}

/// The path that registers a chat user.
pub open spec fn register_path() -> Seq<char> {
    "/_matrix/client/r0/register"@
}

/// The path that joins the room of the memes.
pub open spec fn join_path() -> Seq<char> {
    "/_matrix/client/r0/join/%23memes%3Atilera.org"@
}

impl Meme {
    /// The text that identifies the announcement of this meme by `user`.
    pub fn transaction_text(&self, user: &str) -> (r: String)
        ensures
            r@ == transaction_text(user@, self@),
    {
        let head = concat3(user, "/", self.category.as_str());
        let middle = concat3(head.as_str(), "/", self.filename.as_str());
        concat3(middle.as_str(), "/", self.cid.as_str())
    }

    /// The transaction id of the announcement of this meme by `user`: the
    /// percent-encoded form of its identifying text.
    pub fn calc_txid(&self, user: String) -> (r: String)
        ensures
            r@ == percent_encoded(transaction_text(user@, self@)),
    {
        let txid = self.transaction_text(user.as_str());
        encode_text(txid.as_str())
    }
}

impl JMServiceInner {
    /// The chat id of a user name in the domain of the service.
    pub fn get_mxid(&self, username: String) -> (r: UserID)
        ensures
            r.user_id@ == chat_id(username@, self.matrix_realm()),
    {
        proof {
            self.lemma_accessors();
        }
        let head = concat("@", username.as_str());
        UserID { user_id: concat3(head.as_str(), ":", self.matrix_domain.as_str()) }
    }
}

/// The method of a request.
#[derive(Clone, Copy, Debug, PartialEq, Eq, Structural)]
pub enum Method {
    Get,
    Post,
    Put,
}

/// What a request to the bridge carries as its JSON body.
#[derive(Debug, PartialEq, Eq)]
pub enum Body {
    Empty,
    Register(RegisterRequest),
    Meme(Meme),
    Event(EventID),
}

/// The mathematical value of a [`Body`].
pub enum BodyView {
    Empty,
    Register { reg_type: Seq<char>, username: Seq<char> },
    Meme(MemeView),
    Event { event_id: Seq<char> },
}

impl View for Body {
    type V = BodyView;

    open spec fn view(&self) -> BodyView {
        match self {
            Body::Empty => BodyView::Empty,
            Body::Register(r) => BodyView::Register { reg_type: r.reg_type@, username: r.username@ },
            Body::Meme(m) => BodyView::Meme(m@),
            Body::Event(e) => BodyView::Event { event_id: e.event_id@ },
        }
    }
}

/// The id that the body of an answer is read for.
#[derive(Clone, Copy, Debug, PartialEq, Eq, Structural)]
pub enum Wanted {
    /// The field `user_id`.
    UserId,
    /// The field `room_id`.
    RoomId,
    /// The field `event_id`.
    EventId,
    /// The body is not read.
    Nothing,
}

/// What the answer to the request of a phase is read for: the chat user
/// where the bridge is asked for it or registers it, the room where it is
/// joined, the event where the meme is announced.
pub open spec fn wanted_in(phase: NotifyPhase) -> Wanted {
    match phase {
        NotifyPhase::WhoAmI | NotifyPhase::Registering => Wanted::UserId,
        NotifyPhase::Joining => Wanted::RoomId,
        NotifyPhase::Sending => Wanted::EventId,
        NotifyPhase::Indexing | NotifyPhase::Done => Wanted::Nothing,
    }
}

/// A request to the bridge: the method, the address, the bearer token, the
/// chat user in whose name it is made (the query parameter `user_id`), the
/// body, and what the answer is read for.
#[derive(Debug, PartialEq, Eq)]
pub struct MatrixRequest {
    pub method: Method,
    pub url: String,
    pub bearer: String,
    pub user_id: Option<String>,
    pub body: Body,
    pub wanted: Wanted,
}

/// The mathematical value of a [`MatrixRequest`].
pub struct MatrixRequestView {
    pub method: Method,
    pub url: Seq<char>,
    pub bearer: Seq<char>,
    pub user_id: Option<Seq<char>>,
    pub body: BodyView,
    pub wanted: Wanted,
}

impl View for MatrixRequest {
    type V = MatrixRequestView;

    open spec fn view(&self) -> MatrixRequestView {
        MatrixRequestView {
            method: self.method,
            url: self.url@,
            bearer: self.bearer@,
            user_id: self.user_id.deep_view(),
            body: self.body@,
            wanted: self.wanted,
        }
    }
}

/// Where an announcement stands.
#[derive(Clone, Copy, Debug, PartialEq, Eq, Structural)]
pub enum NotifyPhase {
    /// The bridge is asked whether it knows the uploader's chat user.
    WhoAmI,
    /// The chat user is being registered.
    Registering,
    /// The chat user is joining the room.
    Joining,
    /// The meme is being announced.
    Sending,
    /// The announcement is being indexed under the meme's id.
    Indexing,
    /// The announcement is over.
    Done,
}

/// What the embedding program reports of the last request.
#[derive(Debug, PartialEq, Eq)]
pub enum NotifyEvent {
    /// The bridge answered with this status. `value` is the id that the
    /// request wanted, where the body of the answer holds it.
    Answer { status: HttpStatus, value: Option<String> },
    /// The request could not be sent.
    Failed,
}

/// The mathematical value of a [`NotifyEvent`].
pub enum NotifyEventView {
    Answer { status: u16, value: Option<Seq<char>> },
    Failed,
}

impl View for NotifyEvent {
    type V = NotifyEventView;

    open spec fn view(&self) -> NotifyEventView {
        match self {
            NotifyEvent::Answer { status, value } => NotifyEventView::Answer {
                status: status.code(),
                value: value.deep_view(),
            },
            NotifyEvent::Failed => NotifyEventView::Failed,
        }
    }
}

/// What the embedding program is to do next.
#[derive(Debug, PartialEq, Eq)]
pub enum NotifyAction {
    /// Send this request.
    Send(MatrixRequest),
    /// The meme is announced.
    Finish,
    /// The announcement failed.
    Fail(ServiceError),
}

/// The mathematical value of a [`NotifyAction`].
pub enum NotifyActionView {
    Send(MatrixRequestView),
    Finish,
    Fail(ServiceErrorView),
}

impl View for NotifyAction {
    type V = NotifyActionView;

    open spec fn view(&self) -> NotifyActionView {
        match self {
            NotifyAction::Send(r) => NotifyActionView::Send(r@),
            NotifyAction::Finish => NotifyActionView::Finish,
            NotifyAction::Fail(e) => NotifyActionView::Fail(e@),
        }
    }
}

/// The mathematical value of a [`Notification`].
pub struct NotificationView {
    pub phase: NotifyPhase,
    pub meme: MemeView,
    /// The transaction id of the announcement.
    pub txid: Seq<char>,
    /// The chat name of the uploader.
    pub username: Seq<char>,
    /// The chat user, once the bridge named it.
    pub user: Option<Seq<char>>,
    /// The room, once it is joined.
    pub room: Option<Seq<char>>,
    /// The id of the meme.
    pub id: int,
    /// The base address of the bridge.
    pub base: Seq<char>,
    /// The token that the bridge accepts.
    pub token: Seq<char>,
}

/// Whether a status is one of 200 to 299.
pub open spec fn success(status: u16) -> bool {
    200 <= status < 300
}

impl NotificationView {
    /// The state with the announcement over.
    pub open spec fn done(self) -> NotificationView {
        NotificationView { phase: NotifyPhase::Done, ..self }
    }

    /// The announcement ends with this failure.
    pub open spec fn fail(self, error: ServiceErrorView) -> (NotificationView, NotifyActionView) {
        (self.done(), NotifyActionView::Fail(error))
    }

    /// The request to `address` is sent and the phase `phase` entered, where
    /// there is an address; the announcement fails where there is none.
    pub open spec fn request(
        self,
        phase: NotifyPhase,
        method: Method,
        address: Option<Seq<char>>,
        user_id: Option<Seq<char>>,
        body: BodyView,
    ) -> (NotificationView, NotifyActionView) {
        match address {
            Some(url) => (
                NotificationView { phase, ..self },
                NotifyActionView::Send(
                    MatrixRequestView {
                        method,
                        url,
                        bearer: self.token,
                        user_id,
                        body,
                        wanted: wanted_in(phase),
                    },
                ),
            ),
            None => self.fail(ServiceErrorView::Url),
        }
    }

    /// The request to `path` is sent and the phase `phase` entered, where the
    /// path resolves against the base address of the bridge; the announcement
    /// fails where it does not.
    pub open spec fn send(
        self,
        phase: NotifyPhase,
        method: Method,
        path: Seq<char>,
        user_id: Option<Seq<char>>,
        body: BodyView,
    ) -> (NotificationView, NotifyActionView) {
        self.request(phase, method, joined(self.base, path), user_id, body)
    }

    /// The chat user `user` is known: it joins the room.
    pub open spec fn join_room(self, user: Seq<char>) -> (NotificationView, NotifyActionView) {
        NotificationView { user: Some(user), ..self }.send(
            NotifyPhase::Joining,
            Method::Post,
            join_path(),
            Some(user),
            BodyView::Empty,
        )
    }

    /// The bridge answered with `status`, and `value` could be read from the
    /// body of its answer.
    pub open spec fn on_answer(self, status: u16, value: Option<Seq<char>>) -> (
        NotificationView,
        NotifyActionView,
    ) {
        match self.phase {
            NotifyPhase::WhoAmI => if success(status) {
                match value {
                    Some(user) => self.join_room(user),
                    None => self.fail(ServiceErrorView::Reqwest),
                }
            } else {
                self.send(
                    NotifyPhase::Registering,
                    Method::Post,
                    register_path(),
                    None,
                    BodyView::Register {
                        reg_type: "m.login.application_service"@,
                        username: self.username,
                    },
                )
            },
            NotifyPhase::Registering => if success(status) {
                match value {
                    Some(user) => self.join_room(user),
                    None => self.fail(ServiceErrorView::Reqwest),
                }
            } else {
                self.fail(ServiceErrorView::InvalidResponse(status))
            },
            NotifyPhase::Joining => if success(status) {
                match value {
                    Some(room) => NotificationView { room: Some(room), ..self }.send(
                        NotifyPhase::Sending,
                        Method::Put,
                        announce_path(room, self.txid),
                        self.user,
                        BodyView::Meme(self.meme),
                    ),
                    None => self.fail(ServiceErrorView::Reqwest),
                }
            } else {
                self.fail(ServiceErrorView::InvalidResponse(status))
            },
            NotifyPhase::Sending => if success(status) {
                match (value, self.room) {
                    (Some(event_id), Some(room)) => self.send(
                        NotifyPhase::Indexing,
                        Method::Put,
                        index_path(room, self.id),
                        None,
                        BodyView::Event { event_id },
                    ),
                    _ => self.fail(ServiceErrorView::Reqwest),
                }
            } else {
                self.fail(ServiceErrorView::InvalidResponse(status))
            },
            NotifyPhase::Indexing => if success(status) {
                (self.done(), NotifyActionView::Finish)
            } else {
                self.fail(ServiceErrorView::InvalidResponse(status))
            },
            NotifyPhase::Done => self.fail(ServiceErrorView::Reqwest),
        }
    }

    /// The next state and the next action, for the state `self` and the
    /// event `event`.
    pub open spec fn step(self, event: NotifyEventView) -> (NotificationView, NotifyActionView) {
        match event {
            NotifyEventView::Failed => self.fail(ServiceErrorView::Reqwest),
            NotifyEventView::Answer { status, value } => self.on_answer(status, value),
        }
    }

    /// The state and the first action of the announcement of the meme `id`.
    pub open spec fn begin(
        base: Seq<char>,
        token: Seq<char>,
        domain: Seq<char>,
        meme: MemeView,
        user: Seq<char>,
        id: int,
    ) -> (NotificationView, NotifyActionView) {
        NotificationView {
            phase: NotifyPhase::WhoAmI,
            meme,
            txid: percent_encoded(transaction_text(user, meme)),
            username: chat_name(user),
            user: None,
            room: None,
            id,
            base,
            token,
        }.send(
            NotifyPhase::WhoAmI,
            Method::Get,
            whoami_path(),
            Some(chat_id(chat_name(user), domain)),
            BodyView::Empty,
        )
    }
}

/// The state of one announcement.
#[derive(Debug, PartialEq, Eq)]
pub struct Notification {
    phase: NotifyPhase,
    meme: Meme,
    txid: String,
    username: String,
    user: Option<String>,
    room: Option<String>,
    id: i64,
    base: String,
    token: String,
}

impl View for Notification {
    type V = NotificationView;

    closed spec fn view(&self) -> NotificationView {
        NotificationView {
            phase: self.phase,
            meme: self.meme@,
            txid: self.txid@,
            username: self.username@,
            user: self.user.deep_view(),
            room: self.room.deep_view(),
            id: self.id as int,
            base: self.base@,
            token: self.token@,
        }
    }
}

impl Notification {
    fn fail(self, error: ServiceError) -> (r: (Notification, NotifyAction))
        ensures
            (r.0@, r.1@) == self@.fail(error@),
    {
        (Notification { phase: NotifyPhase::Done, ..self }, NotifyAction::Fail(error))
    }

    /// Sends the request to the given address and enters the phase `phase`;
    /// where the address could not be formed, the announcement fails with
    /// [`ServiceError::Url`].
    pub fn request(
        self,
        phase: NotifyPhase,
        method: Method,
        address: Result<String, ServiceError>,
        user_id: Option<String>,
        body: Body,
    ) -> (r: (Notification, NotifyAction))
        ensures
            (r.0@, r.1@) == self@.request(
                phase,
                method,
                match address {
                    Ok(url) => Some(url@),
                    Err(_) => None,
                },
                user_id.deep_view(),
                body@,
            ),
    {
        match address {
            Ok(url) => {
                let bearer = self.token.clone();
                let wanted = match phase {
                    NotifyPhase::WhoAmI | NotifyPhase::Registering => Wanted::UserId,
                    NotifyPhase::Joining => Wanted::RoomId,
                    NotifyPhase::Sending => Wanted::EventId,
                    NotifyPhase::Indexing | NotifyPhase::Done => Wanted::Nothing,
                };
                (
                    Notification { phase, ..self },
                    NotifyAction::Send(
                        MatrixRequest { method, url, bearer, user_id, body, wanted },
                    ),
                )
            },
            Err(_) => self.fail(ServiceError::Url),
        }
    }

    fn send(
        self,
        phase: NotifyPhase,
        method: Method,
        path: &str,
        user_id: Option<String>,
        body: Body,
    ) -> (r: (Notification, NotifyAction))
        ensures
            (r.0@, r.1@) == self@.send(phase, method, path@, user_id.deep_view(), body@),
    {
        let address = endpoint(self.base.as_str(), path);
        self.request(phase, method, address, user_id, body)
    }

    fn join_room(self, user: String) -> (r: (Notification, NotifyAction))
        ensures
            (r.0@, r.1@) == self@.join_room(user@),
    {
        let name = user.clone();
        Notification { user: Some(user), ..self }.send(
            NotifyPhase::Joining,
            Method::Post,
            "/_matrix/client/r0/join/%23memes%3Atilera.org",
            Some(name),
            Body::Empty,
        )
    }

    fn on_answer(self, status: HttpStatus, value: Option<String>) -> (r: (
        Notification,
        NotifyAction,
    ))
        ensures
            (r.0@, r.1@) == self@.on_answer(status.code(), value.deep_view()),
    {
        let ok = status.is_success();
        match self.phase {
            NotifyPhase::WhoAmI => {
                if ok {
                    match value {
                        Some(user) => self.join_room(user),
                        None => self.fail(ServiceError::Reqwest),
                    }
                } else {
                    let body = Body::Register(RegisterRequest::new(self.username.clone()));
                    self.send(
                        NotifyPhase::Registering,
                        Method::Post,
                        "/_matrix/client/r0/register",
                        None,
                        body,
                    )
                }
            },
            NotifyPhase::Registering => {
                if ok {
                    match value {
                        Some(user) => self.join_room(user),
                        None => self.fail(ServiceError::Reqwest),
                    }
                } else {
                    self.fail(ServiceError::InvalidResponse(status))
                }
            },
            NotifyPhase::Joining => {
                if ok {
                    match value {
                        Some(room) => {
                            let head = concat3(
                                "/_matrix/client/r0/rooms/",
                                room.as_str(),
                                "/send/es.jensmem.meme/",
                            );
                            let path = concat(head.as_str(), self.txid.as_str());
                            let user = match &self.user {
                                Some(u) => Some(u.clone()),
                                None => None,
                            };
                            let body = Body::Meme(self.meme.clone());
                            Notification { room: Some(room), ..self }.send(
                                NotifyPhase::Sending,
                                Method::Put,
                                path.as_str(),
                                user,
                                body,
                            )
                        },
                        None => self.fail(ServiceError::Reqwest),
                    }
                } else {
                    self.fail(ServiceError::InvalidResponse(status))
                }
            },
            NotifyPhase::Sending => {
                if ok {
                    let room = match &self.room {
                        Some(r) => Some(r.clone()),
                        None => None,
                    };
                    match (value, room) {
                        (Some(event_id), Some(room)) => {
                            let head = concat3(
                                "/_matrix/client/r0/rooms/",
                                room.as_str(),
                                "/state/es.jensmem.index/",
                            );
                            let path = concat(head.as_str(), decimal_text(self.id).as_str());
                            self.send(
                                NotifyPhase::Indexing,
                                Method::Put,
                                path.as_str(),
                                None,
                                Body::Event(EventID { event_id }),
                            )
                        },
                        _ => self.fail(ServiceError::Reqwest),
                    }
                } else {
                    self.fail(ServiceError::InvalidResponse(status))
                }
            },
            NotifyPhase::Indexing => {
                if ok {
                    (Notification { phase: NotifyPhase::Done, ..self }, NotifyAction::Finish)
                } else {
                    self.fail(ServiceError::InvalidResponse(status))
                }
            },
            NotifyPhase::Done => self.fail(ServiceError::Reqwest),
        }
    }

    /// Where the announcement stands.
    pub fn phase(&self) -> (r: NotifyPhase)
        ensures
            r == self@.phase,
    {
        self.phase
    }

    /// Takes the outcome of the last request and says what to do next.
    ///
    /// The bridge is first asked who the uploader's chat user is; a user that
    /// it does not know is registered. The user then joins the room, the meme
    /// is announced there, and the announcement is indexed under the meme's
    /// id. A request that cannot be sent, or an answer whose body cannot be
    /// read, ends the announcement with [`ServiceError::Reqwest`]; an answer
    /// that is no success ends it with [`ServiceError::InvalidResponse`],
    /// except to the first question; an address that does not resolve ends it
    /// with [`ServiceError::Url`].
    pub fn step(self, event: NotifyEvent) -> (r: (Notification, NotifyAction))
        ensures
            (r.0@, r.1@) == self@.step(event@),
    {
        match event {
            NotifyEvent::Failed => self.fail(ServiceError::Reqwest),
            NotifyEvent::Answer { status, value } => self.on_answer(status, value),
        }
    }
}

impl JMServiceInner {
    /// Begins the announcement of the meme `id`, stored by `user` in
    /// `category` under `filename` with the content id `cid`.
    pub fn add_meme(
        &self,
        category: String,
        filename: String,
        cid: String,
        user: String,
        id: i64,
    ) -> (r: (Notification, NotifyAction))
        ensures
            (r.0@, r.1@) == NotificationView::begin(
                self.matrix_base(),
                self.matrix_secret(),
                self.matrix_realm(),
                MemeView { category: category@, filename: filename@, cid: cid@ },
                user@,
                id as int,
            ),
    {
        proof {
            self.lemma_accessors();
        }
        let meme = Meme { category, filename, cid };
        let txid = meme.calc_txid(user.clone());
        let username = concat("jm_", user.as_str());
        let mxid = self.get_mxid(username.clone());
        Notification {
            phase: NotifyPhase::WhoAmI,
            meme,
            txid,
            username,
            user: None,
            room: None,
            id,
            base: self.matrix_url.clone(),
            token: self.matrix_token.clone(),
        }.send(
            NotifyPhase::WhoAmI,
            Method::Get,
            "/_matrix/client/r0/account/whoami",
            Some(mxid.user_id),
            Body::Empty,
        )
    }
}

} // verus!
