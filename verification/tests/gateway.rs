use jensmemes::cdn::error::CDNError;
use jensmemes::cdn::{decode_filename, image, image_headers, is_header_text, ImageHeaders};
use jensmemes::codec::decode;
use jensmemes::address::endpoint;
use jensmemes::error::ServiceError;
use jensmemes::ipfs::{
    add_request, cat_request, pin_request, AddQuery, AddRequest, CatQuery, CatRequest, PinQuery,
    PinRequest, PIN_TIMEOUT_SECS,
};
use jensmemes::matrix::{
    Body, EventID, MatrixRequest, Meme, Method, NotifyAction, NotifyEvent, NotifyPhase,
    RegisterRequest, UserID, Wanted,
};
use jensmemes::service::{Config, JMServiceInner};
use jensmemes::status::HttpStatus;

fn text(s: &str) -> String {
    s.to_string()
}

fn service_at(ipfs: &str, matrix: &str) -> JMServiceInner {
    Config {
        addr: text("127.0.0.1:8080"),
        database: text("postgres://localhost/memes"),
        int_cdn: text("http://cdn.internal"),
        ext_cdn: text("https://cdn.example"),
        ipfs_api: text(ipfs),
        matrix_url: text(matrix),
        matrix_token: text("secret"),
        matrix_domain: text("example.org"),
    }
    .service(Vec::new(), Vec::new())
}

fn service() -> JMServiceInner {
    service_at("http://ipfs.example:5001/base/", "https://matrix.example")
}

fn status(code: u16) -> HttpStatus {
    HttpStatus::from_u16(code).unwrap()
}

fn answer(code: u16, value: Option<&str>) -> NotifyEvent {
    NotifyEvent::Answer { status: status(code), value: value.map(text) }
}

fn request(
    method: Method,
    url: &str,
    user_id: Option<&str>,
    body: Body,
    wanted: Wanted,
) -> NotifyAction {
    NotifyAction::Send(MatrixRequest {
        method,
        url: text(url),
        bearer: text("secret"),
        user_id: user_id.map(text),
        body,
        wanted,
    })
}

fn announced() -> Meme {
    Meme { category: text("cat"), filename: text("a b.png"), cid: text("Qm1") }
}

#[test]
fn queries_hold_what_they_are_made_of() {
    assert_eq!(CatQuery::new(text("Qm1")), CatQuery { arg: text("Qm1") });
    assert_eq!(PinQuery::new(text("Qm1")), PinQuery { arg: text("Qm1") });
    assert_eq!(AddQuery::new(true), AddQuery { pin: true });
    assert_eq!(AddQuery::new(false), AddQuery { pin: false });
}

#[test]
fn retrieval_names_the_content_id() {
    assert_eq!(
        service().ipfs_cat(text("Qm1")),
        Ok(CatRequest {
            url: text("http://ipfs.example:5001/api/v0/cat"),
            query: CatQuery { arg: text("Qm1") },
        })
    );
}

#[test]
fn upload_to_the_gateway_does_not_pin() {
    assert_eq!(
        service().ipfs_add(text("a b.png")),
        Ok(AddRequest {
            url: text("http://ipfs.example:5001/api/v0/add"),
            query: AddQuery { pin: false },
            part: text("file"),
            filename: text("a b.png"),
        })
    );
}

#[test]
fn pin_gets_the_longer_timeout() {
    assert_eq!(PIN_TIMEOUT_SECS, 60);
    assert_eq!(
        service().ipfs_pin(text("Qm1")),
        Ok(PinRequest {
            url: text("http://ipfs.example:5001/api/v0/pin/add"),
            query: PinQuery { arg: text("Qm1") },
            timeout_secs: 60,
        })
    );
}

#[test]
fn gateway_address_that_does_not_resolve_is_a_url_error() {
    let s = service_at("not an address", "also none");
    assert_eq!(s.ipfs_cat(text("Qm1")), Err(ServiceError::Url));
    assert_eq!(s.ipfs_add(text("a.png")), Err(ServiceError::Url));
    assert_eq!(s.ipfs_pin(text("Qm1")), Err(ServiceError::Url));
    let (state, action) = s.add_meme(text("cat"), text("a.png"), text("Qm1"), text("1"), 7);
    assert_eq!(action, NotifyAction::Fail(ServiceError::Url));
    assert_eq!(state.phase(), NotifyPhase::Done);
}

#[test]
fn endpoint_resolves_a_path_against_the_base() {
    assert_eq!(
        endpoint("https://alice.com/a/b", "/v1/meta"),
        Ok(text("https://alice.com/v1/meta"))
    );
    assert_eq!(endpoint("https://alice.com/a/", "c.png"), Ok(text("https://alice.com/a/c.png")));
    assert_eq!(endpoint("/relative", "/v1/meta"), Err(ServiceError::Url));
}

#[test]
fn transaction_id_is_percent_encoded() {
    assert_eq!(announced().calc_txid(text("1")), "1%2Fcat%2Fa%20b.png%2FQm1");
    let plain = Meme { category: text("c"), filename: text("f-1_2.~x"), cid: text("Q") };
    assert_eq!(plain.calc_txid(text("u")), "u%2Fc%2Ff-1_2.~x%2FQ");
    let wide = Meme { category: text("ü"), filename: text(""), cid: text("") };
    assert_eq!(wide.calc_txid(text("")), "%2F%C3%BC%2F%2F");
}

#[test]
fn chat_id_joins_name_and_domain() {
    assert_eq!(service().get_mxid(text("jm_1")), UserID { user_id: text("@jm_1:example.org") });
}

#[test]
fn registration_is_one_of_the_application_service() {
    assert_eq!(
        RegisterRequest::new(text("jm_1")),
        RegisterRequest { reg_type: text("m.login.application_service"), username: text("jm_1") }
    );
}

#[test]
fn known_user_joins_announces_and_indexes() {
    let s = service();
    let (state, action) = s.add_meme(text("cat"), text("a b.png"), text("Qm1"), text("1"), 42);
    assert_eq!(state.phase(), NotifyPhase::WhoAmI);
    assert_eq!(
        action,
        request(
            Method::Get,
            "https://matrix.example/_matrix/client/r0/account/whoami",
            Some("@jm_1:example.org"),
            Body::Empty,
            Wanted::UserId,
        )
    );
    let (state, action) = state.step(answer(200, Some("@jm_1:example.org")));
    assert_eq!(state.phase(), NotifyPhase::Joining);
    assert_eq!(
        action,
        request(
            Method::Post,
            "https://matrix.example/_matrix/client/r0/join/%23memes%3Atilera.org",
            Some("@jm_1:example.org"),
            Body::Empty,
            Wanted::RoomId,
        )
    );
    let (state, action) = state.step(answer(200, Some("!room:example.org")));
    assert_eq!(state.phase(), NotifyPhase::Sending);
    assert_eq!(
        action,
        request(
            Method::Put,
            "https://matrix.example/_matrix/client/r0/rooms/!room:example.org/send/es.jensmem.meme/1%2Fcat%2Fa%20b.png%2FQm1",
            Some("@jm_1:example.org"),
            Body::Meme(announced()),
            Wanted::EventId,
        )
    );
    let (state, action) = state.step(answer(200, Some("$event")));
    assert_eq!(state.phase(), NotifyPhase::Indexing);
    assert_eq!(
        action,
        request(
            Method::Put,
            "https://matrix.example/_matrix/client/r0/rooms/!room:example.org/state/es.jensmem.index/42",
            None,
            Body::Event(EventID { event_id: text("$event") }),
            Wanted::Nothing,
        )
    );
    let (state, action) = state.step(answer(204, None));
    assert_eq!(action, NotifyAction::Finish);
    assert_eq!(state.phase(), NotifyPhase::Done);
}

#[test]
fn unknown_user_is_registered_first() {
    let s = service();
    let (state, _) = s.add_meme(text("cat"), text("a.png"), text("Qm1"), text("1"), 42);
    let (state, action) = state.step(answer(401, None));
    assert_eq!(state.phase(), NotifyPhase::Registering);
    assert_eq!(
        action,
        request(
            Method::Post,
            "https://matrix.example/_matrix/client/r0/register",
            None,
            Body::Register(RegisterRequest::new(text("jm_1"))),
            Wanted::UserId,
        )
    );
    let (state, action) = state.step(answer(200, Some("@jm_1:example.org")));
    assert_eq!(state.phase(), NotifyPhase::Joining);
    assert!(matches!(action, NotifyAction::Send(_)));
}

#[test]
fn refused_registration_ends_the_announcement() {
    let s = service();
    let (state, _) = s.add_meme(text("cat"), text("a.png"), text("Qm1"), text("1"), 42);
    let (state, _) = state.step(answer(404, None));
    let (state, action) = state.step(answer(403, Some("ignored")));
    assert_eq!(action, NotifyAction::Fail(ServiceError::InvalidResponse(status(403))));
    assert_eq!(state.phase(), NotifyPhase::Done);
}

#[test]
fn answer_that_is_no_success_ends_the_announcement() {
    let s = service();
    let begin = || s.add_meme(text("cat"), text("a.png"), text("Qm1"), text("1"), 42).0;
    let (state, _) = begin().step(answer(200, Some("@u:e")));
    let (_, action) = state.step(answer(500, None));
    assert_eq!(action, NotifyAction::Fail(ServiceError::InvalidResponse(status(500))));
    let (state, _) = begin().step(answer(200, Some("@u:e")));
    let (state, _) = state.step(answer(200, Some("!r:e")));
    let (_, action) = state.step(answer(429, None));
    assert_eq!(action, NotifyAction::Fail(ServiceError::InvalidResponse(status(429))));
    let (state, _) = begin().step(answer(200, Some("@u:e")));
    let (state, _) = state.step(answer(200, Some("!r:e")));
    let (state, _) = state.step(answer(200, Some("$e")));
    let (_, action) = state.step(answer(300, None));
    assert_eq!(action, NotifyAction::Fail(ServiceError::InvalidResponse(status(300))));
}

#[test]
fn unreadable_answer_and_unsent_request_are_reqwest_errors() {
    let s = service();
    let begin = || s.add_meme(text("cat"), text("a.png"), text("Qm1"), text("1"), 42).0;
    let (state, action) = begin().step(answer(200, None));
    assert_eq!(action, NotifyAction::Fail(ServiceError::Reqwest));
    assert_eq!(state.phase(), NotifyPhase::Done);
    let (_, action) = begin().step(NotifyEvent::Failed);
    assert_eq!(action, NotifyAction::Fail(ServiceError::Reqwest));
    let (state, _) = begin().step(answer(200, Some("@u:e")));
    let (_, action) = state.step(answer(200, None));
    assert_eq!(action, NotifyAction::Fail(ServiceError::Reqwest));
    let (state, _) = begin().step(answer(200, None));
    let (_, action) = state.step(answer(200, Some("late")));
    assert_eq!(action, NotifyAction::Fail(ServiceError::Reqwest));
}

#[test]
fn negative_id_is_indexed_with_its_sign() {
    let s = service();
    let (state, _) = s.add_meme(text("cat"), text("a.png"), text("Qm1"), text("1"), -3);
    let (state, _) = state.step(answer(200, Some("@u:e")));
    let (state, _) = state.step(answer(200, Some("r")));
    let (_, action) = state.step(answer(200, Some("e")));
    assert_eq!(
        action,
        request(
            Method::Put,
            "https://matrix.example/_matrix/client/r0/rooms/r/state/es.jensmem.index/-3",
            None,
            Body::Event(EventID { event_id: text("e") }),
            Wanted::Nothing,
        )
    );
}

#[test]
fn percent_encoded_text_is_decoded() {
    assert_eq!(decode("a%20b"), Some(text("a b")));
    assert_eq!(decode("100%"), Some(text("100%")));
    assert_eq!(decode("%C3%BC"), Some(text("ü")));
    assert_eq!(decode("%c3%28"), None);
    assert_eq!(decode_filename("cat%2Egif"), Ok(text("cat.gif")));
    assert_eq!(decode_filename("%80"), Err(CDNError::Decode));
}

#[test]
fn content_type_is_guessed_from_the_extension() {
    let headers = image("grumpy.png", "Qm1", Some(text("1234"))).unwrap();
    assert_eq!(
        headers,
        ImageHeaders {
            content_type: text("image/png"),
            content_length: text("1234"),
            ipfs_path: text("/ipfs/Qm1"),
        }
    );
    assert_eq!(image("movie.MP4", "Q", Some(text("1"))).unwrap().content_type, "video/mp4");
    assert_eq!(
        image("no-extension", "Q", Some(text("1"))).unwrap().content_type,
        "application/octet-stream"
    );
    assert_eq!(
        image("odd.qqqqq", "Q", Some(text("1"))).unwrap().content_type,
        "application/octet-stream"
    );
}

#[test]
fn file_without_declared_length_is_an_internal_error() {
    assert_eq!(image("grumpy.png", "Qm1", None), Err(CDNError::Internal));
    assert_eq!(image_headers("Qm1", text("image/png"), None), Err(CDNError::Internal));
}

#[test]
fn content_id_that_cannot_stand_in_a_header_is_an_internal_error() {
    assert_eq!(image_headers("Qm\n1", text("image/png"), Some(text("1"))), Err(CDNError::Internal));
    assert_eq!(image_headers("Qm\u{7f}", text("image/png"), Some(text("1"))), Err(CDNError::Internal));
    assert_eq!(
        image_headers("Qm\tü", text("image/png"), Some(text("1"))),
        Ok(ImageHeaders {
            content_type: text("image/png"),
            content_length: text("1"),
            ipfs_path: text("/ipfs/Qm\tü"),
        })
    );
}

#[test]
fn header_text_holds_no_control_character_but_the_tab() {
    assert!(is_header_text(""));
    assert!(is_header_text("visible text ~"));
    assert!(is_header_text("tab\there"));
    assert!(is_header_text("ünïcödé"));
    assert!(!is_header_text("line\nbreak"));
    assert!(!is_header_text("\u{0}"));
    assert!(!is_header_text("\u{1f}"));
    assert!(!is_header_text("del\u{7f}"));
}

#[test]
fn gateway_requests_are_made_for_the_address_that_was_formed() {
    assert_eq!(
        cat_request(Ok(text("http://g/api/v0/cat")), text("Qm1")),
        Ok(CatRequest { url: text("http://g/api/v0/cat"), query: CatQuery { arg: text("Qm1") } })
    );
    assert_eq!(cat_request(Err(ServiceError::Url), text("Qm1")), Err(ServiceError::Url));
    assert_eq!(
        add_request(Ok(text("http://g/api/v0/add")), text("a.png")),
        Ok(AddRequest {
            url: text("http://g/api/v0/add"),
            query: AddQuery { pin: false },
            part: text("file"),
            filename: text("a.png"),
        })
    );
    assert_eq!(add_request(Err(ServiceError::Url), text("a.png")), Err(ServiceError::Url));
    assert_eq!(
        pin_request(Ok(text("http://g/api/v0/pin/add")), text("Qm1")),
        Ok(PinRequest {
            url: text("http://g/api/v0/pin/add"),
            query: PinQuery { arg: text("Qm1") },
            timeout_secs: 60,
        })
    );
    assert_eq!(pin_request(Err(ServiceError::Reqwest), text("Qm1")), Err(ServiceError::Reqwest));
}

#[test]
fn transaction_text_joins_user_category_name_and_content_id() {
    assert_eq!(announced().transaction_text("1"), "1/cat/a b.png/Qm1");
    let empty = Meme { category: text(""), filename: text(""), cid: text("") };
    assert_eq!(empty.transaction_text(""), "///");
}

#[test]
fn request_to_the_bridge_bears_the_token_or_fails_without_an_address() {
    let s = service();
    let begin = || s.add_meme(text("cat"), text("a.png"), text("Qm1"), text("1"), 42).0;
    let (state, action) = begin().request(
        NotifyPhase::Indexing,
        Method::Put,
        Ok(text("https://elsewhere.example/x")),
        Some(text("@u:e")),
        Body::Empty,
    );
    assert_eq!(state.phase(), NotifyPhase::Indexing);
    assert_eq!(
        action,
        request(Method::Put, "https://elsewhere.example/x", Some("@u:e"), Body::Empty, Wanted::Nothing)
    );
    let (state, action) = begin().request(
        NotifyPhase::Indexing,
        Method::Put,
        Err(ServiceError::Url),
        None,
        Body::Empty,
    );
    assert_eq!(state.phase(), NotifyPhase::Done);
    assert_eq!(action, NotifyAction::Fail(ServiceError::Url));
}
