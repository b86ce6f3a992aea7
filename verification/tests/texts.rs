use jensmemes::models::{Meme, MemeOptions, UserIdentifier};
use jensmemes::patterns::is_like;
use jensmemes::sql::selects_row;
use jensmemes::ipfs::IPFSFile;
use jensmemes::models::{Category, User};
use jensmemes::statements::{self, SqlValue, Statement};
use jensmemes::text;
use jensmemes::text::{contains_text, decimal_text, same_text};

fn owned(s: &str) -> String {
    s.to_string()
}

fn t(s: &str) -> SqlValue {
    SqlValue::Text(owned(s))
}

const MEME: &str = "SELECT memes.id, userid, filename, category, name, extract(epoch FROM timestamp) AS ts, cid FROM memes, users WHERE memes.userid = users.id";
const FILTER: &str = " AND (category LIKE $1 AND name LIKE $2 AND filename LIKE $3 AND memes.userid LIKE $4 AND memes.id > $5)";
const USER: &str = "SELECT id, name, COALESCE(MD5(token), '0') AS hash, uploads FROM (SELECT id, name, COALESCE(count.uploads, 0) AS uploads FROM users LEFT JOIN (SELECT userid, COUNT(*) AS uploads FROM memes WHERE DATE(timestamp) = CURRENT_DATE GROUP BY (userid)) AS count ON users.id = count.userid) AS users LEFT JOIN token ON users.id = token.uid";

#[test]
fn decimal_text_is_that_of_the_standard_library() {
    for n in [0i64, 1, 9, 10, 11, 99, 100, 101, 1_700_000_000, -1, -9, -10, -2_147_483_648, i64::MAX, i64::MIN] {
        assert_eq!(decimal_text(n), n.to_string());
    }
    assert_eq!(decimal_text(-305), "-305");
    assert_eq!(decimal_text(9_223_372_036_854_775_807), "9223372036854775807");
}

#[test]
fn texts_are_joined_in_order() {
    assert_eq!(text::concat("ab", "cd"), "abcd");
    assert_eq!(text::concat("", ""), "");
    assert_eq!(text::concat3("a", "", "ü"), "aü");
}

#[test]
fn search_finds_a_text_anywhere() {
    assert!(contains_text("grumpy.png", ""));
    assert!(contains_text("", ""));
    assert!(!contains_text("", "a"));
    assert!(contains_text("grumpy.png", "grumpy.png"));
    assert!(contains_text("grumpy.png", "g"));
    assert!(contains_text("grumpy.png", ".png"));
    assert!(contains_text("grumpy.png", "mpy"));
    assert!(!contains_text("grumpy.png", "grumpy.png "));
    assert!(!contains_text("grumpy.png", "gy"));
    assert!(!contains_text("aab", "abb"));
    assert!(contains_text("aaab", "aab"));
    assert!(contains_text("süß", "üß"));
    assert!(!contains_text("grumpy", "G"));
}

#[test]
fn texts_are_compared_by_their_characters() {
    assert!(same_text(&owned("a"), &owned("a")));
    assert!(!same_text(&owned("a"), &owned("A")));
    assert!(!same_text(&owned("a"), &owned("ab")));
}

#[test]
fn listing_binds_patterns_cursor_and_limit() {
    let filter = MemeOptions {
        category: Some(owned("cat")),
        user_id: Some(owned("1")),
        username: Some(owned("ali")),
        search: Some(owned("grumpy")),
        limit: Some(5),
        after: Some(3),
    };
    assert_eq!(
        statements::get_memes(&filter),
        Statement {
            text: format!("{}{} ORDER BY memes.id LIMIT $6", MEME, FILTER),
            binds: vec![
                t("cat"),
                t("%ali%"),
                t("%grumpy%"),
                t("1"),
                SqlValue::Int(3),
                SqlValue::Int(5),
            ],
        }
    );
}

#[test]
fn absent_filter_fields_bind_wildcards_and_defaults() {
    assert_eq!(
        statements::get_memes(&MemeOptions::empty()).binds,
        vec![t("%"), t("%%"), t("%%"), t("%"), SqlValue::Int(0), SqlValue::Int(100)]
    );
}

#[test]
fn random_and_count_bind_the_filter_without_the_limit() {
    let mut filter = MemeOptions::empty();
    filter.limit = Some(1);
    filter.user_id = Some(owned("2"));
    let binds = vec![t("%"), t("%%"), t("%%"), t("2"), SqlValue::Int(0)];
    assert_eq!(
        statements::get_random_meme(&filter),
        Statement {
            text: format!("{}{} ORDER BY RANDOM() LIMIT 1", MEME, FILTER),
            binds: vec![t("%"), t("%%"), t("%%"), t("2"), SqlValue::Int(0)],
        }
    );
    assert_eq!(
        statements::count_memes(&filter),
        Statement {
            text: format!(
                "SELECT COUNT(memes.id) AS count FROM memes, users WHERE memes.userid = users.id{}",
                FILTER
            ),
            binds,
        }
    );
}

#[test]
fn single_rows_are_fetched_by_their_keys() {
    assert_eq!(
        statements::get_meme(-4),
        Statement { text: format!("{} AND memes.id = $1", MEME), binds: vec![SqlValue::Int(-4)] }
    );
    assert_eq!(
        statements::get_user_meme(&owned("1"), &owned("a.png")),
        Statement {
            text: format!(
                "{} AND memes.userid = $1 AND filename = $2 ORDER BY memes.id DESC",
                MEME
            ),
            binds: vec![t("1"), t("a.png")],
        }
    );
    assert_eq!(
        statements::get_category(&owned("cat")),
        Statement { text: owned("SELECT * FROM categories WHERE id = $1"), binds: vec![t("cat")] }
    );
    assert_eq!(
        statements::get_categories(),
        Statement { text: owned("SELECT * FROM categories ORDER BY num"), binds: Vec::new() }
    );
    assert_eq!(
        statements::get_cid(&owned("1"), &owned("a.png")),
        Statement {
            text: owned("SELECT cid FROM memes WHERE userid = $1 AND filename = $2 ORDER BY id DESC"),
            binds: vec![t("1"), t("a.png")],
        }
    );
    assert_eq!(
        statements::get_filenames(&owned("1")),
        Statement {
            text: owned("SELECT filename FROM memes WHERE userid = $1 ORDER BY filename"),
            binds: vec![t("1")],
        }
    );
    assert_eq!(
        statements::get_user_ids(),
        Statement { text: owned("SELECT id FROM users ORDER BY id"), binds: Vec::new() }
    );
}

#[test]
fn users_are_resolved_by_the_field_that_the_identifier_names() {
    assert_eq!(
        statements::get_user(&UserIdentifier::Id(owned("1"))),
        Statement { text: format!("{} WHERE users.id = $1", USER), binds: vec![t("1")] }
    );
    assert_eq!(
        statements::get_user(&UserIdentifier::Token(owned("tok"))),
        Statement { text: format!("{} WHERE token = $1", USER), binds: vec![t("tok")] }
    );
    assert_eq!(
        statements::get_user(&UserIdentifier::Username(owned("alice"))),
        Statement { text: format!("{} WHERE name = $1", USER), binds: vec![t("alice")] }
    );
    assert_eq!(
        statements::get_user(&UserIdentifier::Null),
        Statement {
            text: owned("SELECT id, name, '0' AS hash, 0 AS uploads FROM users WHERE id = '000'"),
            binds: Vec::new(),
        }
    );
    assert_eq!(statements::get_users(), Statement { text: owned(USER), binds: Vec::new() });
}

#[test]
fn insertion_binds_name_user_category_address_and_content_id() {
    let user = User {
        id: owned("1"),
        name: owned("alice"),
        userdir: owned("1"),
        tokenhash: owned("h"),
        dayuploads: 0,
    };
    let file = IPFSFile { hash: owned("Qm1"), name: owned("a.png"), size: owned("9") };
    let category = Category { id: owned("cat"), name: owned("Cats") };
    assert_eq!(
        statements::add_meme_sql(&user, &file, &owned("203.0.113.7"), &category),
        Statement {
            text: owned("INSERT INTO memes (filename, userid, category, timestamp, ip, cid) VALUES ($1, $2, $3, NOW(), $4, $5)"),
            binds: vec![t("a.png"), t("1"), t("cat"), t("203.0.113.7"), t("Qm1")],
        }
    );
    assert_eq!(
        statements::last_id(),
        Statement { text: owned("SELECT LASTVAL() AS id"), binds: Vec::new() }
    );
}

#[test]
fn percent_matches_any_run_and_underscore_any_one_character() {
    assert!(is_like("", ""));
    assert!(!is_like("a", ""));
    assert!(!is_like("", "a"));
    assert!(is_like("", "%"));
    assert!(is_like("anything", "%"));
    assert!(is_like("anything", "%%"));
    assert!(is_like("grumpy.png", "grumpy.png"));
    assert!(!is_like("grumpy.png", "grumpy"));
    assert!(is_like("grumpy.png", "grumpy%"));
    assert!(is_like("grumpy.png", "%.png"));
    assert!(is_like("grumpy.png", "%mpy%"));
    assert!(!is_like("grumpy.png", "%mpx%"));
    assert!(is_like("grumpy.png", "g%y%g"));
    assert!(is_like("grumpy.png", "g_umpy.png"));
    assert!(is_like("grumpy.png", "__________"));
    assert!(!is_like("grumpy.png", "_________"));
    assert!(!is_like("", "_"));
    assert!(is_like("aab", "%ab"));
    assert!(is_like("süß", "s_ß"));
    assert!(!is_like("Cat", "cat"));
}

fn stored(category: &str, userid: &str, username: &str, filename: &str, id: i32) -> Meme {
    Meme {
        id,
        filename: owned(filename),
        userid: owned(userid),
        username: owned(username),
        category: owned(category),
        timestamp: 0,
        ipfs: owned("Qm"),
    }
}

fn bound_text(value: &SqlValue) -> String {
    match value {
        SqlValue::Text(t) => t.clone(),
        SqlValue::Int(n) => n.to_string(),
    }
}

#[test]
fn bound_patterns_select_what_the_filter_selects() {
    let rows = [
        stored("cat", "1", "alice", "grumpy.png", 1),
        stored("dog", "2", "bob", "happy.jpg", 2),
        stored("cat", "12", "malice", "grumpy cat.png", 3),
        stored("category", "1", "al", "", 4),
    ];
    let texts = [None, Some(""), Some("cat"), Some("1"), Some("al"), Some("grumpy"), Some("x")];
    let mut selected = 0;
    for category in texts {
        for user_id in texts {
            for username in texts {
                for search in texts {
                    let filter = MemeOptions {
                        category: category.map(owned),
                        user_id: user_id.map(owned),
                        username: username.map(owned),
                        search: search.map(owned),
                        limit: None,
                        after: Some(1),
                    };
                    let binds = statements::get_memes(&filter).binds;
                    for row in &rows {
                        let by_patterns = is_like(&row.category, &bound_text(&binds[0]))
                            && is_like(&row.username, &bound_text(&binds[1]))
                            && is_like(&row.filename, &bound_text(&binds[2]))
                            && is_like(&row.userid, &bound_text(&binds[3]))
                            && row.id.to_string() > bound_text(&binds[4]);
                        assert_eq!(by_patterns, selects_row(&filter, row));
                        if by_patterns {
                            selected += 1;
                        }
                    }
                }
            }
        }
    }
    assert!(selected > 0);
}
