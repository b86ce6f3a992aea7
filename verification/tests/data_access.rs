use jensmemes::cdn::sql::get_cid;
use jensmemes::error::SqlError;
use jensmemes::ipfs::IPFSFile;
use jensmemes::models::{Category, Count, Meme, MemeOptions, User, UserIdentifier};
use jensmemes::service::{Account, Config, JMServiceInner};
use jensmemes::sql::{day_index, selects_row};
use jensmemes::tables::find_latest;

fn text(s: &str) -> String {
    s.to_string()
}

fn config() -> Config {
    Config {
        addr: text("127.0.0.1:8080"),
        database: text("postgres://localhost/memes"),
        int_cdn: text("http://cdn.internal"),
        ext_cdn: text("https://cdn.example"),
        ipfs_api: text("http://ipfs.example:5001"),
        matrix_url: text("https://matrix.example"),
        matrix_token: text("secret"),
        matrix_domain: text("example.org"),
    }
}

fn account(id: &str, name: &str, token: Option<&str>, hash: &str) -> Account {
    Account { id: text(id), name: text(name), token: token.map(text), tokenhash: text(hash) }
}

fn service() -> JMServiceInner {
    config().service(
        vec![
            account("000", "anonymous", None, ""),
            account("1", "alice", Some("tok-a"), "hash-a"),
            account("2", "bob", None, "unused"),
        ],
        vec![
            Category { id: text("cat"), name: text("Cats") },
            Category { id: text("dog"), name: text("Dogs") },
        ],
    )
}

fn user(id: &str, name: &str) -> User {
    User { id: text(id), name: text(name), userdir: text(id), tokenhash: text("0"), dayuploads: 0 }
}

fn file(name: &str, hash: &str) -> IPFSFile {
    IPFSFile { hash: text(hash), name: text(name), size: text("10") }
}

fn category(id: &str) -> Category {
    Category { id: text(id), name: text(id) }
}

fn add(s: &mut JMServiceInner, uid: &str, uname: &str, name: &str, hash: &str, cat: &str) -> i32 {
    s.add_meme_sql(&user(uid, uname), &file(name, hash), &text("10.0.0.1"), &category(cat)).unwrap()
}

fn filled() -> JMServiceInner {
    let mut s = service();
    s.set_clock(1_700_000_000);
    add(&mut s, "1", "alice", "grumpy.png", "Qm1", "cat");
    add(&mut s, "2", "bob", "happy.jpg", "Qm2", "dog");
    add(&mut s, "1", "alice", "sleepy.gif", "Qm3", "cat");
    add(&mut s, "2", "bob", "grumpy.png", "Qm4", "cat");
    s
}

fn ids(memes: &[Meme]) -> Vec<i32> {
    memes.iter().map(|m| m.id).collect()
}

fn row(id: i32, userid: &str, filename: &str, cid: &str) -> Meme {
    Meme {
        id,
        filename: text(filename),
        userid: text(userid),
        username: text("name"),
        category: text("cat"),
        timestamp: 0,
        ipfs: text(cid),
    }
}

#[test]
fn ids_start_at_one_and_grow_by_one() {
    let mut s = service();
    assert_eq!(add(&mut s, "1", "alice", "a.png", "Qa", "cat"), 1);
    assert_eq!(add(&mut s, "1", "alice", "b.png", "Qb", "cat"), 2);
    assert_eq!(add(&mut s, "2", "bob", "a.png", "Qc", "dog"), 3);
}

#[test]
fn inserted_meme_is_found_under_its_new_id() {
    let mut s = service();
    s.set_clock(1_700_000_123);
    add(&mut s, "2", "bob", "first.png", "Qfirst", "dog");
    let id = add(&mut s, "1", "alice", "grumpy.png", "Qm1", "cat");
    let found = s.get_meme(id).unwrap().unwrap();
    assert_eq!(
        found,
        Meme {
            id: 2,
            filename: text("grumpy.png"),
            userid: text("1"),
            username: text("alice"),
            category: text("cat"),
            timestamp: 1_700_000_123,
            ipfs: text("Qm1"),
        }
    );
}

#[test]
fn absent_meme_is_none() {
    let s = filled();
    assert_eq!(s.get_meme(5), Ok(None));
    assert_eq!(s.get_meme(0), Ok(None));
    assert_eq!(s.get_meme(-1), Ok(None));
    assert_eq!(service().get_meme(1), Ok(None));
}

#[test]
fn second_row_of_a_user_under_one_name_is_refused() {
    let mut s = filled();
    let r = s.add_meme_sql(
        &user("1", "alice"),
        &file("grumpy.png", "Qother"),
        &text("10.0.0.9"),
        &category("dog"),
    );
    assert_eq!(r, Err(SqlError::Other));
    assert_eq!(s.count_memes(MemeOptions::empty()), Ok(Count { count: 4 }));
    assert_eq!(get_cid(text("1"), text("grumpy.png"), &s), Ok(text("Qm1")));
}

#[test]
fn listing_without_filter_returns_all_rows_in_id_order() {
    let s = filled();
    let all = s.get_memes(MemeOptions::empty()).unwrap();
    assert_eq!(ids(&all), vec![1, 2, 3, 4]);
    assert_eq!(all[1].filename, "happy.jpg");
    assert_eq!(all[1].username, "bob");
    assert_eq!(all[3].ipfs, "Qm4");
}

#[test]
fn listing_after_a_cursor_returns_only_later_rows() {
    let s = filled();
    let mut filter = MemeOptions::empty();
    filter.after = Some(2);
    assert_eq!(ids(&s.get_memes(filter).unwrap()), vec![3, 4]);
    let mut filter = MemeOptions::empty();
    filter.after = Some(4);
    assert_eq!(ids(&s.get_memes(filter).unwrap()), Vec::<i32>::new());
    let mut filter = MemeOptions::empty();
    filter.after = Some(-7);
    assert_eq!(ids(&s.get_memes(filter).unwrap()), vec![1, 2, 3, 4]);
}

#[test]
fn listing_stops_at_the_limit() {
    let s = filled();
    let mut filter = MemeOptions::empty();
    filter.limit = Some(3);
    assert_eq!(ids(&s.get_memes(filter).unwrap()), vec![1, 2, 3]);
    let mut filter = MemeOptions::empty();
    filter.limit = Some(0);
    assert_eq!(ids(&s.get_memes(filter).unwrap()), Vec::<i32>::new());
    let mut filter = MemeOptions::empty();
    filter.limit = Some(2);
    filter.after = Some(1);
    assert_eq!(ids(&s.get_memes(filter).unwrap()), vec![2, 3]);
}

#[test]
fn listing_without_limit_returns_a_hundred_rows() {
    let mut s = service();
    for i in 0..101 {
        add(&mut s, "1", "alice", &format!("meme-{}.png", i), "Qm", "cat");
    }
    let listed = s.get_memes(MemeOptions::empty()).unwrap();
    assert_eq!(listed.len(), 100);
    assert_eq!(listed[0].id, 1);
    assert_eq!(listed[99].id, 100);
    assert_eq!(s.count_memes(MemeOptions::empty()), Ok(Count { count: 101 }));
}

#[test]
fn negative_limit_is_a_failure_of_the_store() {
    let s = filled();
    let mut filter = MemeOptions::empty();
    filter.limit = Some(-1);
    assert_eq!(s.get_memes(filter), Err(SqlError::Other));
}

#[test]
fn filter_fields_restrict_the_listing() {
    let s = filled();
    let mut filter = MemeOptions::empty();
    filter.category = Some(text("cat"));
    assert_eq!(ids(&s.get_memes(filter).unwrap()), vec![1, 3, 4]);
    let mut filter = MemeOptions::empty();
    filter.user_id = Some(text("2"));
    assert_eq!(ids(&s.get_memes(filter).unwrap()), vec![2, 4]);
    let mut filter = MemeOptions::empty();
    filter.username = Some(text("lic"));
    assert_eq!(ids(&s.get_memes(filter).unwrap()), vec![1, 3]);
    let mut filter = MemeOptions::empty();
    filter.search = Some(text("py."));
    assert_eq!(ids(&s.get_memes(filter).unwrap()), vec![1, 2, 3, 4]);
    let mut filter = MemeOptions::empty();
    filter.search = Some(text("grumpy"));
    filter.user_id = Some(text("2"));
    assert_eq!(ids(&s.get_memes(filter).unwrap()), vec![4]);
    let mut filter = MemeOptions::empty();
    filter.category = Some(text("ca"));
    assert_eq!(ids(&s.get_memes(filter).unwrap()), Vec::<i32>::new());
    let mut filter = MemeOptions::empty();
    filter.search = Some(text(""));
    assert_eq!(ids(&s.get_memes(filter).unwrap()), vec![1, 2, 3, 4]);
}

#[test]
fn selects_row_checks_every_field() {
    let meme = row(5, "1", "grumpy.png", "Qm");
    assert!(selects_row(&MemeOptions::empty(), &meme));
    let mut filter = MemeOptions::empty();
    filter.after = Some(5);
    assert!(!selects_row(&filter, &meme));
    filter.after = Some(4);
    assert!(selects_row(&filter, &meme));
    filter.username = Some(text("nam"));
    assert!(selects_row(&filter, &meme));
    filter.username = Some(text("names"));
    assert!(!selects_row(&filter, &meme));
    assert!(!selects_row(&MemeOptions::empty(), &row(0, "1", "a", "Q")));
}

fn filters() -> Vec<MemeOptions> {
    let mut out = Vec::new();
    for category in [None, Some("cat"), Some("dog"), Some("bird")] {
        for user_id in [None, Some("1"), Some("2")] {
            for search in [None, Some("grumpy"), Some(".")] {
                for after in [None, Some(0), Some(2), Some(9)] {
                    out.push(MemeOptions {
                        category: category.map(text),
                        user_id: user_id.map(text),
                        username: None,
                        search: search.map(text),
                        limit: None,
                        after,
                    });
                }
            }
        }
    }
    out
}

#[test]
fn count_is_the_length_of_the_unlimited_listing() {
    let s = filled();
    let mut seen_some = false;
    for filter in filters() {
        let unlimited = MemeOptions {
            category: filter.category.clone(),
            user_id: filter.user_id.clone(),
            username: filter.username.clone(),
            search: filter.search.clone(),
            limit: Some(i32::MAX),
            after: filter.after,
        };
        let listed = s.get_memes(unlimited).unwrap();
        let count = s.count_memes(filter).unwrap();
        assert_eq!(count.count, listed.len() as i64);
        seen_some = seen_some || count.count > 0;
    }
    assert!(seen_some);
}

#[test]
fn count_ignores_the_limit() {
    let s = filled();
    let mut filter = MemeOptions::empty();
    filter.limit = Some(1);
    filter.category = Some(text("cat"));
    assert_eq!(s.count_memes(filter), Ok(Count { count: 3 }));
    assert_eq!(service().count_memes(MemeOptions::empty()), Ok(Count { count: 0 }));
}

#[test]
fn random_meme_is_one_of_the_selected() {
    let s = filled();
    let mut filter = MemeOptions::empty();
    filter.category = Some(text("cat"));
    filter.limit = Some(1);
    let picks: Vec<i32> = (0..7)
        .map(|draw| {
            let f = MemeOptions {
                category: filter.category.clone(),
                user_id: None,
                username: None,
                search: None,
                limit: filter.limit,
                after: None,
            };
            s.get_random_meme(f, draw).unwrap().id
        })
        .collect();
    assert_eq!(picks, vec![1, 3, 4, 1, 3, 4, 1]);
}

#[test]
fn random_meme_of_none_is_row_not_found() {
    let s = filled();
    let mut filter = MemeOptions::empty();
    filter.category = Some(text("bird"));
    assert_eq!(s.get_random_meme(filter, 3), Err(SqlError::RowNotFound));
    assert_eq!(service().get_random_meme(MemeOptions::empty(), 0), Err(SqlError::RowNotFound));
}

#[test]
fn user_meme_is_the_row_of_that_user_under_that_name() {
    let s = filled();
    let found = s.get_user_meme(text("2"), text("grumpy.png")).unwrap().unwrap();
    assert_eq!(found.id, 4);
    assert_eq!(found.ipfs, "Qm4");
    assert_eq!(s.get_user_meme(text("2"), text("sleepy.gif")), Ok(None));
    assert_eq!(s.get_user_meme(text("3"), text("grumpy.png")), Ok(None));
}

#[test]
fn most_recent_row_wins_among_duplicates() {
    let rows = vec![
        row(1, "1", "a.png", "Qold"),
        row(2, "2", "a.png", "Qbob"),
        row(3, "1", "a.png", "Qnew"),
        row(4, "1", "b.png", "Qb"),
    ];
    assert_eq!(find_latest(&rows, &text("1"), &text("a.png")), Some(2));
    assert_eq!(find_latest(&rows, &text("2"), &text("a.png")), Some(1));
    assert_eq!(find_latest(&rows, &text("2"), &text("b.png")), None);
    assert_eq!(find_latest(&Vec::new(), &text("1"), &text("a.png")), None);
}

#[test]
fn highest_id_wins_in_any_order_of_the_rows() {
    let rows = vec![
        row(9, "1", "a.png", "Qnine"),
        row(3, "1", "a.png", "Qthree"),
        row(7, "1", "a.png", "Qseven"),
    ];
    assert_eq!(find_latest(&rows, &text("1"), &text("a.png")), Some(0));
}

#[test]
fn content_id_of_a_file_or_row_not_found() {
    let s = filled();
    assert_eq!(get_cid(text("1"), text("sleepy.gif"), &s), Ok(text("Qm3")));
    assert_eq!(get_cid(text("1"), text("happy.jpg"), &s), Err(SqlError::RowNotFound));
}

#[test]
fn categories_come_in_display_order() {
    let s = service();
    let all = s.get_categories().unwrap();
    assert_eq!(
        all,
        vec![
            Category { id: text("cat"), name: text("Cats") },
            Category { id: text("dog"), name: text("Dogs") },
        ]
    );
    assert_eq!(s.get_category(&text("dog")), Ok(Some(Category { id: text("dog"), name: text("Dogs") })));
    assert_eq!(s.get_category(&text("bird")), Ok(None));
}

#[test]
fn user_is_resolved_by_id_token_or_name() {
    let s = filled();
    let alice = User {
        id: text("1"),
        name: text("alice"),
        userdir: text("1"),
        tokenhash: text("hash-a"),
        dayuploads: 2,
    };
    assert_eq!(s.get_user(UserIdentifier::Id(text("1"))), Ok(Some(alice.clone())));
    assert_eq!(s.get_user(UserIdentifier::Token(text("tok-a"))), Ok(Some(alice.clone())));
    assert_eq!(s.get_user(UserIdentifier::Username(text("alice"))), Ok(Some(alice.clone())));
    assert_eq!(s.check_token(&text("tok-a")), Ok(Some(alice)));
    assert_eq!(s.check_token(&text("tok-b")), Ok(None));
    assert_eq!(s.get_user(UserIdentifier::Id(text("7"))), Ok(None));
    assert_eq!(s.get_user(UserIdentifier::Username(text("ali"))), Ok(None));
}

#[test]
fn user_without_token_shows_no_hash() {
    let s = filled();
    let bob = s.get_user(UserIdentifier::Id(text("2"))).unwrap().unwrap();
    assert_eq!(bob.tokenhash, "0");
    assert_eq!(bob.userdir, "2");
    assert_eq!(bob.dayuploads, 2);
}

#[test]
fn no_identifier_resolves_to_the_anonymous_user() {
    let s = filled();
    assert_eq!(
        s.get_user(UserIdentifier::Null),
        Ok(Some(User {
            id: text("000"),
            name: text("anonymous"),
            userdir: text("000"),
            tokenhash: text("0"),
            dayuploads: 0,
        }))
    );
    let empty = config().service(Vec::new(), Vec::new());
    assert_eq!(empty.get_user(UserIdentifier::Null), Ok(None));
}

#[test]
fn uploads_of_the_day_count_only_today() {
    let mut s = service();
    s.set_clock(86_400 * 10 + 5);
    add(&mut s, "1", "alice", "yesterday.png", "Q1", "cat");
    s.set_clock(86_400 * 11);
    add(&mut s, "1", "alice", "midnight.png", "Q2", "cat");
    add(&mut s, "2", "bob", "other.png", "Q3", "cat");
    s.set_clock(86_400 * 11 + 86_399);
    add(&mut s, "1", "alice", "late.png", "Q4", "cat");
    let alice = s.get_user(UserIdentifier::Id(text("1"))).unwrap().unwrap();
    assert_eq!(alice.dayuploads, 2);
    s.set_clock(86_400 * 12);
    let alice = s.get_user(UserIdentifier::Id(text("1"))).unwrap().unwrap();
    assert_eq!(alice.dayuploads, 0);
    s.set_clock(86_400 * 10);
    let alice = s.get_user(UserIdentifier::Id(text("1"))).unwrap().unwrap();
    assert_eq!(alice.dayuploads, 1);
}

#[test]
fn all_users_are_listed_as_shown() {
    let s = filled();
    let users = s.get_users().unwrap();
    assert_eq!(users.len(), 3);
    assert_eq!(users[0].id, "000");
    assert_eq!(users[0].dayuploads, 0);
    assert_eq!(users[1].tokenhash, "hash-a");
    assert_eq!(users[1].dayuploads, 2);
    assert_eq!(users[2].tokenhash, "0");
}

#[test]
fn day_of_a_time_rounds_down() {
    assert_eq!(day_index(0), 0);
    assert_eq!(day_index(86_399), 0);
    assert_eq!(day_index(86_400), 1);
    assert_eq!(day_index(-1), -1);
    assert_eq!(day_index(-86_400), -1);
    assert_eq!(day_index(-86_401), -2);
    assert_eq!(day_index(i32::MAX), 24_855);
    assert_eq!(day_index(i32::MIN), -24_856);
}

#[test]
fn addresses_of_the_files_come_from_the_configuration() {
    let s = service();
    assert_eq!(s.int_cdn_url(), "http://cdn.internal");
    assert_eq!(s.ext_cdn_url(), "https://cdn.example");
}

#[test]
fn address_of_the_client_is_kept_beside_the_row() {
    let mut s = service();
    let id = s
        .add_meme_sql(&user("1", "alice"), &file("a.png", "Qa"), &text("203.0.113.7"), &category("cat"))
        .unwrap();
    add(&mut s, "2", "bob", "b.png", "Qb", "cat");
    assert_eq!(s.get_origin(id), Some(text("203.0.113.7")));
    assert_eq!(s.get_origin(2), Some(text("10.0.0.1")));
    assert_eq!(s.get_origin(3), None);
    let refused = s.add_meme_sql(
        &user("1", "alice"),
        &file("a.png", "Qz"),
        &text("198.51.100.1"),
        &category("cat"),
    );
    assert_eq!(refused, Err(SqlError::Other));
    assert_eq!(s.get_origin(id), Some(text("203.0.113.7")));
}
