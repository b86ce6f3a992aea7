use jensmemes::error::{APIError, ServiceError, SqlError};
use jensmemes::ipfs::IPFSFile;
use jensmemes::models::{Category, User};
use jensmemes::v1::models::UploadResponse;
use jensmemes::v1::routes::{Upload, UploadAction, UploadEvent, UploadPhase, DAILY_UPLOAD_LIMIT};

fn text(s: &str) -> String {
    s.to_string()
}

fn upload() -> Upload {
    Upload::new(text("203.0.113.7"), text("https://cdn.example"))
}

fn field(name: &str) -> UploadEvent {
    UploadEvent::Field { name: Some(text(name)), file_name: None }
}

fn file_field(name: &str, file_name: &str) -> UploadEvent {
    UploadEvent::Field { name: Some(text(name)), file_name: Some(text(file_name)) }
}

fn stored(name: &str, hash: &str) -> IPFSFile {
    IPFSFile { hash: text(hash), name: text(name), size: text("1") }
}

fn user(dayuploads: i32) -> User {
    User {
        id: text("1"),
        name: text("alice"),
        userdir: text("1"),
        tokenhash: text("hash"),
        dayuploads,
    }
}

fn cats() -> Category {
    Category { id: text("cat"), name: text("Cats") }
}

fn run(events: Vec<UploadEvent>) -> (Upload, Vec<UploadAction>) {
    let mut state = upload();
    let mut actions = Vec::new();
    for event in events {
        let (next, action) = state.step(event);
        state = next;
        actions.push(action);
    }
    (state, actions)
}

fn form(files: &[(&str, &str)]) -> Vec<UploadEvent> {
    let mut events = vec![
        field("token"),
        UploadEvent::Text(text("tok-a")),
        field("category"),
        UploadEvent::Text(text("cat")),
    ];
    for (name, hash) in files {
        events.push(file_field("file", name));
        events.push(UploadEvent::Stored(stored(name, hash)));
    }
    events.push(UploadEvent::EndOfForm);
    events
}

fn inserts(actions: &[UploadAction]) -> usize {
    actions.iter().filter(|a| matches!(a, UploadAction::Insert { .. })).count()
}

#[test]
fn the_limit_is_twenty_a_day() {
    assert_eq!(DAILY_UPLOAD_LIMIT, 20);
}

#[test]
fn nineteen_uploads_and_one_file_are_admitted() {
    let mut events = form(&[("a.png", "Qa")]);
    events.push(UploadEvent::User(Some(user(19))));
    events.push(UploadEvent::Category(Some(cats())));
    let (state, actions) = run(events);
    assert_eq!(state.phase(), UploadPhase::Inserting);
    assert_eq!(
        actions.last(),
        Some(&UploadAction::Insert {
            user: user(19),
            file: stored("a.png", "Qa"),
            ip: text("203.0.113.7"),
            category: cats(),
        })
    );
}

#[test]
fn nineteen_uploads_and_two_files_are_refused_and_nothing_is_inserted() {
    let mut events = form(&[("a.png", "Qa"), ("b.png", "Qb")]);
    events.push(UploadEvent::User(Some(user(19))));
    let (state, actions) = run(events);
    assert_eq!(
        actions.last(),
        Some(&UploadAction::Fail(APIError::Forbidden(text("Upload limit reached"))))
    );
    assert!(state.is_done());
    assert_eq!(inserts(&actions), 0);
    let (state, action) = state.step(UploadEvent::Category(Some(cats())));
    assert!(matches!(action, UploadAction::Fail(_)));
    let (state, action) = state.step(UploadEvent::Inserted(5));
    assert!(matches!(action, UploadAction::Fail(_)));
    assert!(state.is_done());
}

#[test]
fn twenty_uploads_and_no_file_are_admitted() {
    let mut events = form(&[]);
    events.push(UploadEvent::User(Some(user(20))));
    let (_, actions) = run(events);
    assert_eq!(actions.last(), Some(&UploadAction::GetCategory { id: text("cat") }));
}

#[test]
fn twenty_uploads_and_one_file_are_refused() {
    let mut events = form(&[("a.png", "Qa")]);
    events.push(UploadEvent::User(Some(user(20))));
    let (_, actions) = run(events);
    assert_eq!(
        actions.last(),
        Some(&UploadAction::Fail(APIError::Forbidden(text("Upload limit reached"))))
    );
}

#[test]
fn missing_token_is_unauthorized_though_files_are_stored() {
    let (state, actions) = run(vec![
        field("category"),
        UploadEvent::Text(text("cat")),
        file_field("file", "a.png"),
        UploadEvent::Stored(stored("a.png", "Qa")),
        UploadEvent::EndOfForm,
    ]);
    assert_eq!(actions[2], UploadAction::Store { filename: text("a.png") });
    assert_eq!(
        actions.last(),
        Some(&UploadAction::Fail(APIError::Unauthorized(text("Missing token"))))
    );
    assert!(state.is_done());
}

#[test]
fn missing_category_is_a_bad_request() {
    let (_, actions) =
        run(vec![field("token"), UploadEvent::Text(text("tok-a")), UploadEvent::EndOfForm]);
    assert_eq!(
        actions.last(),
        Some(&UploadAction::Fail(APIError::BadRequest(text("Missing category"))))
    );
}

#[test]
fn missing_token_is_reported_before_missing_category() {
    let (_, actions) = run(vec![UploadEvent::EndOfForm]);
    assert_eq!(
        actions,
        vec![UploadAction::Fail(APIError::Unauthorized(text("Missing token")))]
    );
}

#[test]
fn field_without_name_is_a_bad_request() {
    let (state, actions) =
        run(vec![UploadEvent::Field { name: None, file_name: Some(text("a.png")) }]);
    assert_eq!(
        actions,
        vec![UploadAction::Fail(APIError::BadRequest(text(
            "A multipart-form field is missing a name"
        )))]
    );
    assert!(state.is_done());
}

#[test]
fn file_field_without_filename_is_a_bad_request() {
    let (_, actions) = run(vec![field("file")]);
    assert_eq!(
        actions,
        vec![UploadAction::Fail(APIError::BadRequest(text("A file field has no filename")))]
    );
    let (_, actions) = run(vec![field("file[]")]);
    assert_eq!(
        actions,
        vec![UploadAction::Fail(APIError::BadRequest(text("A file field has no filename")))]
    );
}

#[test]
fn fields_are_read_stored_or_skipped_by_name() {
    let (state, actions) = run(vec![
        field("token"),
        UploadEvent::Text(text("tok-a")),
        file_field("comment", "ignored.txt"),
        file_field("file[]", "a.png"),
        UploadEvent::Stored(stored("a.png", "Qa")),
        field("category"),
    ]);
    assert_eq!(
        actions,
        vec![
            UploadAction::ReadText,
            UploadAction::NextField,
            UploadAction::NextField,
            UploadAction::Store { filename: text("a.png") },
            UploadAction::NextField,
            UploadAction::ReadText,
        ]
    );
    assert_eq!(state.phase(), UploadPhase::Category);
}

#[test]
fn unknown_token_is_forbidden() {
    let mut events = form(&[("a.png", "Qa")]);
    assert_eq!(run(form(&[])).1.last(), Some(&UploadAction::CheckToken { token: text("tok-a") }));
    events.push(UploadEvent::User(None));
    let (_, actions) = run(events);
    assert_eq!(
        actions.last(),
        Some(&UploadAction::Fail(APIError::Forbidden(text("token not existing"))))
    );
}

#[test]
fn unknown_category_is_a_bad_request() {
    let mut events = form(&[("a.png", "Qa")]);
    events.push(UploadEvent::User(Some(user(0))));
    events.push(UploadEvent::Category(None));
    let (_, actions) = run(events);
    assert_eq!(
        actions.last(),
        Some(&UploadAction::Fail(APIError::BadRequest(text("Category not existing"))))
    );
    assert_eq!(inserts(&actions), 0);
}

#[test]
fn no_inserted_row_is_an_internal_error() {
    let mut events = form(&[("a.png", "Qa")]);
    events.push(UploadEvent::User(Some(user(0))));
    events.push(UploadEvent::Category(Some(cats())));
    events.push(UploadEvent::Inserted(0));
    let (state, actions) = run(events);
    assert_eq!(
        actions.last(),
        Some(&UploadAction::Fail(APIError::Internal(text("Database insertion error"))))
    );
    assert!(state.is_done());
}

#[test]
fn each_file_is_inserted_pinned_and_announced_in_turn() {
    let mut events = form(&[("a.png", "Qa"), ("b c.png", "Qb")]);
    events.push(UploadEvent::User(Some(user(18))));
    events.push(UploadEvent::Category(Some(cats())));
    events.push(UploadEvent::Inserted(41));
    events.push(UploadEvent::Pinned);
    events.push(UploadEvent::Notified);
    events.push(UploadEvent::Inserted(42));
    events.push(UploadEvent::Pinned);
    events.push(UploadEvent::Notified);
    let (state, actions) = run(events);
    let tail: Vec<UploadAction> = actions.into_iter().skip(10).collect();
    assert_eq!(
        tail,
        vec![
            UploadAction::Insert {
                user: user(18),
                file: stored("a.png", "Qa"),
                ip: text("203.0.113.7"),
                category: cats(),
            },
            UploadAction::Pin { cid: text("Qa") },
            UploadAction::Notify {
                category: text("cat"),
                filename: text("a.png"),
                cid: text("Qa"),
                user: text("1"),
                id: 41,
            },
            UploadAction::Insert {
                user: user(18),
                file: stored("b c.png", "Qb"),
                ip: text("203.0.113.7"),
                category: cats(),
            },
            UploadAction::Pin { cid: text("Qb") },
            UploadAction::Notify {
                category: text("cat"),
                filename: text("b c.png"),
                cid: text("Qb"),
                user: text("1"),
                id: 42,
            },
            UploadAction::Respond(UploadResponse {
                status: 201,
                error: None,
                files: Some(vec![
                    text("https://cdn.example/1/a.png"),
                    text("https://cdn.example/1/b c.png"),
                ]),
                token: text("tok-a"),
            }),
        ]
    );
    assert!(state.is_done());
}

#[test]
fn upload_without_files_is_created_with_no_links() {
    let mut events = form(&[]);
    events.push(UploadEvent::User(Some(user(0))));
    events.push(UploadEvent::Category(Some(cats())));
    let (state, actions) = run(events);
    assert_eq!(
        actions.last(),
        Some(&UploadAction::Respond(UploadResponse {
            status: 201,
            error: None,
            files: Some(Vec::new()),
            token: text("tok-a"),
        }))
    );
    assert!(state.is_done());
}

#[test]
fn failure_of_an_action_ends_the_upload_with_that_failure() {
    let (state, actions) = run(vec![field("token"), UploadEvent::Failed(APIError::Multipart)]);
    assert_eq!(actions.last(), Some(&UploadAction::Fail(APIError::Multipart)));
    assert!(state.is_done());

    let mut events = form(&[("a.png", "Qa")]);
    events.push(UploadEvent::Failed(APIError::Sql(SqlError::Other)));
    let (_, actions) = run(events);
    assert_eq!(actions.last(), Some(&UploadAction::Fail(APIError::Sql(SqlError::Other))));

    let mut events = form(&[("a.png", "Qa")]);
    events.push(UploadEvent::User(Some(user(0))));
    events.push(UploadEvent::Category(Some(cats())));
    events.push(UploadEvent::Inserted(7));
    events.push(UploadEvent::Failed(APIError::Service(ServiceError::Reqwest)));
    let (state, actions) = run(events);
    assert_eq!(
        actions.last(),
        Some(&UploadAction::Fail(APIError::Service(ServiceError::Reqwest)))
    );
    assert_eq!(inserts(&actions), 1);
    assert!(state.is_done());
}

#[test]
fn event_that_is_not_awaited_is_an_internal_error() {
    let (state, actions) = run(vec![UploadEvent::Pinned]);
    assert_eq!(
        actions,
        vec![UploadAction::Fail(APIError::Internal(text("Unexpected event")))]
    );
    assert!(state.is_done());
    let (_, actions) = run(vec![field("token"), UploadEvent::EndOfForm]);
    assert_eq!(
        actions.last(),
        Some(&UploadAction::Fail(APIError::Internal(text("Unexpected event"))))
    );
}

#[test]
fn new_upload_awaits_the_first_field() {
    let state = upload();
    assert_eq!(state.phase(), UploadPhase::Fields);
    assert!(!state.is_done());
}
