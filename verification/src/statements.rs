//! The statements that the service sends to the relational store: their text
//! and the values bound to their placeholders, in order.

use vstd::prelude::*;
use crate::ipfs::{IPFSFile, IPFSFileView};
use crate::models::{
    Category, CategoryView, MemeOptions, MemeOptionsView, MemeView, User, UserIdentifier,
    UserIdentifierView, UserView,
};
use crate::patterns::{lemma_like_any, lemma_like_infix, lemma_like_plain, like, plain};
use crate::tables::{cursor, limit_of, selects, DEFAULT_LIMIT};
use crate::text::{is_infix, occurs_at};
use crate::text::concat3;

verus! {

/// The columns of a meme joined with its uploader.
pub const SELECT_MEME: &'static str =
    "SELECT memes.id, userid, filename, category, name, extract(epoch FROM timestamp) AS ts, cid FROM memes, users WHERE memes.userid = users.id";

/// The columns of a user with the hash of the token and the uploads of the
/// day.
pub const SELECT_USER: &'static str =
    "SELECT id, name, COALESCE(MD5(token), '0') AS hash, uploads FROM (SELECT id, name, COALESCE(count.uploads, 0) AS uploads FROM users LEFT JOIN (SELECT userid, COUNT(*) AS uploads FROM memes WHERE DATE(timestamp) = CURRENT_DATE GROUP BY (userid)) AS count ON users.id = count.userid) AS users LEFT JOIN token ON users.id = token.uid";

/// The restriction of a meme query by a filter.
pub const WHERE_FILTER: &'static str =
    " AND (category LIKE $1 AND name LIKE $2 AND filename LIKE $3 AND memes.userid LIKE $4 AND memes.id > $5)";

/// The end of a listing: in the order of the ids, up to a limit.
pub const ORDER_LIMIT: &'static str = " ORDER BY memes.id LIMIT $6";

/// The end of a random draw.
pub const ORDER_RANDOM: &'static str = " ORDER BY RANDOM() LIMIT 1";

/// The restriction of a meme query to one id.
pub const WHERE_ID: &'static str = " AND memes.id = $1";

/// The restriction of a meme query to a user's file, the newest row first.
pub const WHERE_USER_FILE: &'static str =
    " AND memes.userid = $1 AND filename = $2 ORDER BY memes.id DESC";

/// The count of the memes joined with their uploaders.
pub const COUNT_MEMES: &'static str =
    "SELECT COUNT(memes.id) AS count FROM memes, users WHERE memes.userid = users.id";

/// The category of an id.
pub const SELECT_CATEGORY: &'static str = "SELECT * FROM categories WHERE id = $1";

/// All categories in display order.
pub const SELECT_CATEGORIES: &'static str = "SELECT * FROM categories ORDER BY num";

/// The restriction of a user query to an id.
pub const WHERE_USER_ID: &'static str = " WHERE users.id = $1";

/// The restriction of a user query to a token.
pub const WHERE_TOKEN: &'static str = " WHERE token = $1";

/// The restriction of a user query to a name.
pub const WHERE_NAME: &'static str = " WHERE name = $1";

/// The anonymous user.
pub const SELECT_ANONYMOUS: &'static str =
    "SELECT id, name, '0' AS hash, 0 AS uploads FROM users WHERE id = '000'";

/// The insertion of a meme, at the time of the store.
pub const INSERT_MEME: &'static str =
    "INSERT INTO memes (filename, userid, category, timestamp, ip, cid) VALUES ($1, $2, $3, NOW(), $4, $5)";

/// The id that the last insertion generated.
pub const SELECT_LAST_ID: &'static str = "SELECT LASTVAL() AS id";

/// The content id of a user's file, the newest row first.
pub const SELECT_CID: &'static str =
    "SELECT cid FROM memes WHERE userid = $1 AND filename = $2 ORDER BY id DESC";

/// The file names of a user, in their order.
pub const SELECT_FILENAMES: &'static str =
    "SELECT filename FROM memes WHERE userid = $1 ORDER BY filename";

/// The ids of all users, in their order.
pub const SELECT_USER_IDS: &'static str = "SELECT id FROM users ORDER BY id";

/// A value bound to a placeholder.
#[derive(Debug, PartialEq, Eq)]
pub enum SqlValue {
    Text(String),
    Int(i32),
}

/// The mathematical value of an [`SqlValue`].
pub enum SqlValueView {
    Text(Seq<char>),
    Int(int),
}

impl View for SqlValue {
    type V = SqlValueView;

    open spec fn view(&self) -> SqlValueView {
        match self {
            SqlValue::Text(t) => SqlValueView::Text(t@),
            SqlValue::Int(n) => SqlValueView::Int(*n as int),
        }
    }
}

impl DeepView for SqlValue {
    type V = SqlValueView;

    open spec fn deep_view(&self) -> SqlValueView {
        self@
    }
}

/// A statement: its text and the values of its placeholders `$1`, `$2`, ...
#[derive(Debug, PartialEq, Eq)]
pub struct Statement {
    pub text: String,
    pub binds: Vec<SqlValue>,
}

/// The pattern that matches every text.
pub open spec fn any_text() -> Seq<char> {
    "%"@
}

/// The pattern that matches the texts that contain `text`.
pub open spec fn containing(text: Seq<char>) -> Seq<char> {
    "%"@ + text + "%"@
}

/// The pattern for a field that must be equal to the filter's, or may be
/// anything where the filter names none.
pub open spec fn exactly(text: Option<Seq<char>>) -> Seq<char> {
    match text {
        Some(t) => t,
        None => any_text(),
    }
}

/// The pattern for a field that must contain the filter's text; where the
/// filter names none, the pattern matches every text.
pub open spec fn around(text: Option<Seq<char>>) -> Seq<char> {
    match text {
        Some(t) => containing(t),
        None => containing(Seq::empty()),
    }
}

/// The values that restrict a meme query by a filter: the patterns for the
/// category, the uploader's name, the file name and the uploader's id, and
/// the cursor.
pub open spec fn filter_binds(filter: MemeOptionsView) -> Seq<SqlValueView> {
    seq![
        SqlValueView::Text(exactly(filter.category)),
        SqlValueView::Text(around(filter.username)),
        SqlValueView::Text(around(filter.search)),
        SqlValueView::Text(exactly(filter.user_id)),
        SqlValueView::Int(cursor(filter)),
    ]
}

/// Whether the store lets a row through a meme query with the values bound
/// for a filter: each pattern matches its column, and the id lies behind the
/// cursor.
pub open spec fn binds_select(filter: MemeOptionsView, row: MemeView) -> bool {
    &&& like(row.category, exactly(filter.category))
    &&& like(row.username, around(filter.username))
    &&& like(row.filename, around(filter.search))
    &&& like(row.userid, exactly(filter.user_id))
    &&& row.id > cursor(filter)
}

/// Whether every text of a filter stands for itself in a pattern.
pub open spec fn plain_filter(filter: MemeOptionsView) -> bool {
    &&& filter.category matches Some(text) ==> plain(text)
    &&& filter.user_id matches Some(text) ==> plain(text)
    &&& filter.username matches Some(text) ==> plain(text)
    &&& filter.search matches Some(text) ==> plain(text)
}

/// The pattern for a missing field matches every text, and the pattern for a
/// plain text matches that text alone.
pub proof fn lemma_exactly(text: Seq<char>, wanted: Option<Seq<char>>)
    requires
        wanted matches Some(w) ==> plain(w),
    ensures
        like(text, exactly(wanted)) <==> (wanted matches Some(w) ==> text == w),
{
    match wanted {
        Some(w) => lemma_like_plain(text, w),
        None => {
            reveal_strlit("%");
            assert("%"@ =~= seq!['%']);
            lemma_like_any(text);
        },
    }
}

/// The pattern round a missing field matches every text, and the pattern
/// round a plain text matches the texts that contain it.
pub proof fn lemma_around(text: Seq<char>, wanted: Option<Seq<char>>)
    requires
        wanted matches Some(w) ==> plain(w),
    ensures
        like(text, around(wanted)) <==> (wanted matches Some(w) ==> is_infix(text, w)),
{
    reveal_strlit("%");
    assert("%"@ =~= seq!['%']);
    match wanted {
        Some(w) => lemma_like_infix(text, w),
        None => {
            lemma_like_infix(text, Seq::empty());
            assert(text.subrange(0, 0) =~= Seq::<char>::empty());
            assert(occurs_at(text, Seq::empty(), 0));
        },
    }
}

/// A field that is absent restricts nothing, and a field that is present
/// restricts as the filter says: with the values bound for a filter whose
/// texts are plain, the store lets through the rows that the filter selects,
/// and no others.
pub proof fn lemma_binds_select_what_the_filter_selects(filter: MemeOptionsView, row: MemeView)
    requires
        plain_filter(filter),
    ensures
        binds_select(filter, row) <==> selects(filter, row),
{
    lemma_exactly(row.category, filter.category);
    lemma_exactly(row.userid, filter.user_id);
    lemma_around(row.username, filter.username);
    lemma_around(row.filename, filter.search);
}

fn exact_pattern(text: &Option<String>) -> (r: String)
    ensures
        r@ == exactly(text.deep_view()),
{
    match text {
        Some(t) => t.clone(),
        None => String::from_str("%"),
    }
}

fn around_pattern(text: &Option<String>) -> (r: String)
    ensures
        r@ == around(text.deep_view()),
{
    match text {
        Some(t) => concat3("%", t.as_str(), "%"),
        None => {
            let r = concat3("%", "", "%");
            proof {
                reveal_strlit("");
                assert(""@ =~= Seq::<char>::empty());
            }
            r
        },
    }
}

fn bind_filter(filter: &MemeOptions) -> (r: Vec<SqlValue>)
    ensures
        r.deep_view() == filter_binds(filter@),
{
    let mut binds: Vec<SqlValue> = Vec::new();
    binds.push(SqlValue::Text(exact_pattern(&filter.category)));
    binds.push(SqlValue::Text(around_pattern(&filter.username)));
    binds.push(SqlValue::Text(around_pattern(&filter.search)));
    binds.push(SqlValue::Text(exact_pattern(&filter.user_id)));
    binds.push(
        SqlValue::Int(
            match filter.after {
                Some(after) => after,
                None => 0,
            },
        ),
    );
    assert(binds.deep_view() =~= filter_binds(filter@));
    binds
}

/// The statement that lists the memes that a filter selects, in the order of
/// their ids, up to its limit.
pub fn get_memes(filter: &MemeOptions) -> (r: Statement)
    ensures
        r.text@ == SELECT_MEME@ + WHERE_FILTER@ + ORDER_LIMIT@,
        r.binds.deep_view() == filter_binds(filter@).push(SqlValueView::Int(limit_of(filter@))),
{
    let mut binds = bind_filter(filter);
    let ghost before = binds.deep_view();
    let limit = match filter.limit {
        Some(limit) => limit,
        None => DEFAULT_LIMIT,
    };
    binds.push(SqlValue::Int(limit));
    assert(binds.deep_view() =~= before.push(SqlValueView::Int(limit as int)));
    Statement { text: concat3(SELECT_MEME, WHERE_FILTER, ORDER_LIMIT), binds }
}

/// The statement of one bound text.
fn with_text(text: String, value: &String) -> (r: Statement)
    ensures
        r.text@ == text@,
        r.binds.deep_view() == seq![SqlValueView::Text(value@)],
{
    let mut binds: Vec<SqlValue> = Vec::new();
    binds.push(SqlValue::Text(value.clone()));
    assert(binds.deep_view() =~= seq![SqlValueView::Text(value@)]);
    Statement { text, binds }
}

/// The statement without placeholders.
fn unbound(text: &str) -> (r: Statement)
    ensures
        r.text@ == text@,
        r.binds.deep_view() == Seq::<SqlValueView>::empty(),
{
    let binds: Vec<SqlValue> = Vec::new();
    assert(binds.deep_view() =~= Seq::<SqlValueView>::empty());
    Statement { text: String::from_str(text), binds }
}

/// The statement of two bound texts.
fn with_texts(text: String, first: &String, second: &String) -> (r: Statement)
    ensures
        r.text@ == text@,
        r.binds.deep_view() == seq![SqlValueView::Text(first@), SqlValueView::Text(second@)],
{
    let mut binds: Vec<SqlValue> = Vec::new();
    binds.push(SqlValue::Text(first.clone()));
    binds.push(SqlValue::Text(second.clone()));
    assert(binds.deep_view() =~= seq![SqlValueView::Text(first@), SqlValueView::Text(second@)]);
    Statement { text, binds }
}

/// The statement that fetches the meme of an id.
pub fn get_meme(id: i32) -> (r: Statement)
    ensures
        r.text@ == SELECT_MEME@ + WHERE_ID@,
        r.binds.deep_view() == seq![SqlValueView::Int(id as int)],
{
    let mut binds: Vec<SqlValue> = Vec::new();
    binds.push(SqlValue::Int(id));
    assert(binds.deep_view() =~= seq![SqlValueView::Int(id as int)]);
    Statement { text: crate::text::concat(SELECT_MEME, WHERE_ID), binds }
}

/// The statement that draws one of the memes that a filter selects. The
/// filter's limit plays no part.
pub fn get_random_meme(filter: &MemeOptions) -> (r: Statement)
    ensures
        r.text@ == SELECT_MEME@ + WHERE_FILTER@ + ORDER_RANDOM@,
        r.binds.deep_view() == filter_binds(filter@),
{
    Statement { text: concat3(SELECT_MEME, WHERE_FILTER, ORDER_RANDOM), binds: bind_filter(filter) }
}

/// The statement that counts the memes that a filter selects. The filter's
/// limit plays no part.
pub fn count_memes(filter: &MemeOptions) -> (r: Statement)
    ensures
        r.text@ == COUNT_MEMES@ + WHERE_FILTER@,
        r.binds.deep_view() == filter_binds(filter@),
{
    Statement { text: crate::text::concat(COUNT_MEMES, WHERE_FILTER), binds: bind_filter(filter) }
}

/// The statement that fetches the rows of a user under a file name, the
/// newest first.
pub fn get_user_meme(user_id: &String, filename: &String) -> (r: Statement)
    ensures
        r.text@ == SELECT_MEME@ + WHERE_USER_FILE@,
        r.binds.deep_view() == seq![
            SqlValueView::Text(user_id@),
            SqlValueView::Text(filename@),
        ],
{
    with_texts(crate::text::concat(SELECT_MEME, WHERE_USER_FILE), user_id, filename)
}

/// The statement that fetches the category of an id.
pub fn get_category(id: &String) -> (r: Statement)
    ensures
        r.text@ == SELECT_CATEGORY@,
        r.binds.deep_view() == seq![SqlValueView::Text(id@)],
{
    with_text(String::from_str(SELECT_CATEGORY), id)
}

/// The statement that lists the categories in display order.
pub fn get_categories() -> (r: Statement)
    ensures
        r.text@ == SELECT_CATEGORIES@,
        r.binds.deep_view() == Seq::<SqlValueView>::empty(),
{
    unbound(SELECT_CATEGORIES)
}

/// The text of the statement that resolves an identifier.
pub open spec fn user_text(identifier: UserIdentifierView) -> Seq<char> {
    match identifier {
        UserIdentifierView::Id(_) => SELECT_USER@ + WHERE_USER_ID@,
        UserIdentifierView::Token(_) => SELECT_USER@ + WHERE_TOKEN@,
        UserIdentifierView::Username(_) => SELECT_USER@ + WHERE_NAME@,
        UserIdentifierView::Null => SELECT_ANONYMOUS@,
    }
}

/// The values of the statement that resolves an identifier.
pub open spec fn user_binds(identifier: UserIdentifierView) -> Seq<SqlValueView> {
    match identifier {
        UserIdentifierView::Id(id) => seq![SqlValueView::Text(id)],
        UserIdentifierView::Token(token) => seq![SqlValueView::Text(token)],
        UserIdentifierView::Username(name) => seq![SqlValueView::Text(name)],
        UserIdentifierView::Null => Seq::empty(),
    }
}

/// The statement that resolves an identifier to a user.
pub fn get_user(identifier: &UserIdentifier) -> (r: Statement)
    ensures
        r.text@ == user_text(identifier@),
        r.binds.deep_view() == user_binds(identifier@),
{
    match identifier {
        UserIdentifier::Id(id) => with_text(crate::text::concat(SELECT_USER, WHERE_USER_ID), id),
        UserIdentifier::Token(token) => with_text(
            crate::text::concat(SELECT_USER, WHERE_TOKEN),
            token,
        ),
        UserIdentifier::Username(name) => with_text(
            crate::text::concat(SELECT_USER, WHERE_NAME),
            name,
        ),
        UserIdentifier::Null => unbound(SELECT_ANONYMOUS),
    }
}

/// The statement that lists all users.
pub fn get_users() -> (r: Statement)
    ensures
        r.text@ == SELECT_USER@,
        r.binds.deep_view() == Seq::<SqlValueView>::empty(),
{
    unbound(SELECT_USER)
}

/// The values of an insertion: the file name, the uploader's id, the
/// category's id, the client's address and the content id.
pub open spec fn insert_binds(
    user: UserView,
    file: IPFSFileView,
    ip: Seq<char>,
    category: CategoryView,
) -> Seq<SqlValueView> {
    seq![
        SqlValueView::Text(file.name),
        SqlValueView::Text(user.id),
        SqlValueView::Text(category.id),
        SqlValueView::Text(ip),
        SqlValueView::Text(file.hash),
    ]
}

/// The statement that inserts the row of a stored file. Within the same
/// transaction [`last_id`] fetches the id of the row.
pub fn add_meme_sql(user: &User, file: &IPFSFile, ip: &String, category: &Category) -> (r:
    Statement)
    ensures
        r.text@ == INSERT_MEME@,
        r.binds.deep_view() == insert_binds(user@, file@, ip@, category@),
{
    let mut binds: Vec<SqlValue> = Vec::new();
    binds.push(SqlValue::Text(file.name.clone()));
    binds.push(SqlValue::Text(user.id.clone()));
    binds.push(SqlValue::Text(category.id.clone()));
    binds.push(SqlValue::Text(ip.clone()));
    binds.push(SqlValue::Text(file.hash.clone()));
    assert(binds.deep_view() =~= insert_binds(user@, file@, ip@, category@));
    Statement { text: String::from_str(INSERT_MEME), binds }
}

/// The statement that fetches the id of the row that the transaction
/// inserted last.
pub fn last_id() -> (r: Statement)
    ensures
        r.text@ == SELECT_LAST_ID@,
        r.binds.deep_view() == Seq::<SqlValueView>::empty(),
{
    unbound(SELECT_LAST_ID)
}

/// The statement that fetches the content ids of a user's file, the newest
/// first.
pub fn get_cid(user: &String, filename: &String) -> (r: Statement)
    ensures
        r.text@ == SELECT_CID@,
        r.binds.deep_view() == seq![SqlValueView::Text(user@), SqlValueView::Text(filename@)],
{
    with_texts(String::from_str(SELECT_CID), user, filename)
}

/// The statement that lists the file names of a user.
pub fn get_filenames(user: &String) -> (r: Statement)
    ensures
        r.text@ == SELECT_FILENAMES@,
        r.binds.deep_view() == seq![SqlValueView::Text(user@)],
{
    with_text(String::from_str(SELECT_FILENAMES), user)
}

/// The statement that lists the ids of all users.
pub fn get_user_ids() -> (r: Statement)
    ensures
        r.text@ == SELECT_USER_IDS@,
        r.binds.deep_view() == Seq::<SqlValueView>::empty(),
{
    unbound(SELECT_USER_IDS)
}

} // verus!
