//! Data access: what each query returns from the tables of the service, and
//! what an insertion does to them.

use vstd::prelude::*;
use crate::error::SqlError;
use crate::ipfs::{IPFSFile, IPFSFileView};
use crate::models::{
    Category, CategoryView, Count, Meme, MemeOptions, MemeView, User, UserIdentifier,
    UserIdentifierView, UserView,
};
use crate::service::{table_wf, Account, AccountView, JMServiceInner};
use crate::tables::{
    ascending_ids, counted, day_of, find_latest, first_of, found, is_stored_as, latest,
    lemma_filter_keeps, lemma_filter_take, lemma_first_hit, lemma_id_above_position,
    lemma_inserted_is_found, lemma_latest_has_highest_id, lemma_latest_is_stored,
    lemma_listing_is_ascending, limit_of, listed, matching, next_id, selecting, selects,
    stored_as, stored_today, uploads_today, with_id, DEFAULT_LIMIT,
};
use crate::text::{contains_text, same_text};

verus! {

/// The id of the account that stands for the anonymous user.
pub open spec fn anonymous_id() -> Seq<char> {
    "000"@
}

/// The token hash that is shown where there is no token.
pub open spec fn no_hash() -> Seq<char> {
    "0"@
}

/// The accounts that an identifier names.
pub open spec fn named_by(identifier: UserIdentifierView) -> spec_fn(AccountView) -> bool {
    match identifier {
        UserIdentifierView::Id(id) => |account: AccountView| account.id == id,
        UserIdentifierView::Token(token) => |account: AccountView| account.token == Some(token),
        UserIdentifierView::Username(name) => |account: AccountView| account.name == name,
        UserIdentifierView::Null => |account: AccountView| account.id == anonymous_id(),
    }
}

/// An account as the service shows it: its directory is its id, its token
/// appears as the stored hash, and its uploads of the day are counted from the
/// meme table.
pub open spec fn shown(account: AccountView, rows: Seq<MemeView>, now: int) -> UserView {
    UserView {
        id: account.id,
        name: account.name,
        userdir: account.id,
        tokenhash: if account.token is Some {
            account.tokenhash
        } else {
            no_hash()
        },
        dayuploads: uploads_today(rows, account.id, now) as int,
    }
}

/// An account shown as the anonymous user: without a token hash and without
/// uploads.
pub open spec fn shown_anonymous(account: AccountView) -> UserView {
    UserView {
        id: account.id,
        name: account.name,
        userdir: account.id,
        tokenhash: no_hash(),
        dayuploads: 0,
    }
}

/// The user that an identifier resolves to: the first account that it names.
/// A request that names nobody resolves to the account of the anonymous user,
/// shown without a token hash and without uploads.
pub open spec fn resolved(
    accounts: Seq<AccountView>,
    rows: Seq<MemeView>,
    now: int,
    identifier: UserIdentifierView,
) -> Option<UserView> {
    match first_of(accounts.filter(named_by(identifier))) {
        None => None,
        Some(account) => if identifier is Null {
            Some(shown_anonymous(account))
        } else {
            Some(shown(account, rows, now))
        },
    }
}

/// The categories with the given id.
pub open spec fn category_with(id: Seq<char>) -> spec_fn(CategoryView) -> bool {
    |category: CategoryView| category.id == id
}

/// Whether a row for this uploader under this file name can be appended: the
/// next id is in range, and the uploader has no row under the name.
pub open spec fn insertable(rows: Seq<MemeView>, userid: Seq<char>, filename: Seq<char>) -> bool {
    &&& next_id(rows) <= i32::MAX
    &&& rows.filter(stored_as(userid, filename)).len() == 0
}

/// The row that an insertion appends.
pub open spec fn new_row(
    rows: Seq<MemeView>,
    user: UserView,
    file: IPFSFileView,
    category: CategoryView,
    now: int,
) -> MemeView {
    MemeView {
        id: next_id(rows),
        filename: file.name,
        userid: user.id,
        username: user.name,
        category: category.id,
        timestamp: now,
        ipfs: file.hash,
    }
}

/// Whether the filter lets the row through.
pub fn selects_row(filter: &MemeOptions, row: &Meme) -> (r: bool)
    ensures
        r == selects(filter@, row@),
{
    let category_fits = match &filter.category {
        Some(category) => same_text(&row.category, category),
        None => true,
    };
    let user_fits = match &filter.user_id {
        Some(user_id) => same_text(&row.userid, user_id),
        None => true,
    };
    let name_fits = match &filter.username {
        Some(name) => contains_text(row.username.as_str(), name.as_str()),
        None => true,
    };
    let text_fits = match &filter.search {
        Some(text) => contains_text(row.filename.as_str(), text.as_str()),
        None => true,
    };
    let after = match filter.after {
        Some(after) => after,
        None => 0,
    };
    category_fits && user_fits && name_fits && text_fits && row.id > after
}

/// The day of a time.
pub fn day_index(seconds: i32) -> (r: i32)
    ensures
        r == day_of(seconds as int),
{
    if seconds >= 0 {
        let s = seconds as u32;
        (s / 86400) as i32
    } else {
        let back: u64 = (-(seconds as i64)) as u64;
        let days: u64 = (back + 86399) / 86400;
        (-(days as i64)) as i32
    }
}

impl JMServiceInner {
    /// Of the rows that the filter selects, the first `limit`.
    fn select(&self, filter: &MemeOptions, limit: usize) -> (r: Vec<Meme>)
        ensures
            r.deep_view() == ({
                let hits = matching(self.rows(), filter@);
                if limit < hits.len() {
                    hits.take(limit as int)
                } else {
                    hits
                }
            }),
    {
        proof {
            self.lemma_accessors();
        }
        let ghost rows = self.rows();
        let ghost keep = selecting(filter@);
        let mut out: Vec<Meme> = Vec::new();
        let mut i: usize = 0;
        assert(rows.take(0).filter(keep) =~= Seq::<MemeView>::empty()) by {
            reveal(Seq::filter);
        }
        while i < self.memes.len()
            invariant
                i <= self.memes.len(),
                rows == self.memes.deep_view(),
                keep == selecting(filter@),
                out.deep_view() =~= ({
                    let hits = rows.take(i as int).filter(keep);
                    if limit < hits.len() {
                        hits.take(limit as int)
                    } else {
                        hits
                    }
                }),
            decreases self.memes.len() - i,
        {
            proof {
                lemma_filter_take(rows, i as int, keep);
            }
            if out.len() < limit && selects_row(filter, &self.memes[i]) {
                let ghost before = out.deep_view();
                let row = self.memes[i].clone();
                out.push(row);
                assert(out.deep_view() =~= before.push(row@));
            }
            i = i + 1;
        }
        assert(rows.take(i as int) =~= rows);
        out
    }

    /// The meme with the given id, if there is one.
    pub fn get_meme(&self, id: i32) -> (r: Result<Option<Meme>, SqlError>)
        ensures
            r matches Ok(meme) && meme.deep_view() == found(self.rows(), id as int),
            table_wf(self.rows()),
    {
        proof {
            use_type_invariant(self);
            self.lemma_accessors();
        }
        let ghost rows = self.rows();
        let ghost keep = with_id(id as int);
        let mut i: usize = 0;
        assert(rows.take(0).filter(keep).len() == 0) by {
            reveal(Seq::filter);
        }
        while i < self.memes.len()
            invariant
                i <= self.memes.len(),
                rows == self.memes.deep_view(),
                rows == self.rows(),
                table_wf(rows),
                keep == with_id(id as int),
                rows.take(i as int).filter(keep).len() == 0,
            decreases self.memes.len() - i,
        {
            if self.memes[i].id == id {
                proof {
                    lemma_first_hit(rows, i as int, keep);
                }
                return Ok(Some(self.memes[i].clone()));
            }
            proof {
                lemma_filter_take(rows, i as int, keep);
            }
            i = i + 1;
        }
        assert(rows.take(i as int) =~= rows);
        Ok(None)
    }

    /// The address of the client that sent the meme of an id, if the table
    /// holds the meme.
    pub fn get_origin(&self, id: i32) -> (r: Option<String>)
        ensures
            match r {
                Some(ip) => exists|i: int|
                    0 <= i < self.rows().len() && self.rows().len() == self.origins().len()
                        && self.rows()[i].id == id && #[trigger] self.origins()[i] == ip@,
                None => forall|i: int|
                    0 <= i < self.rows().len() ==> (#[trigger] self.rows()[i]).id != id,
            },
            table_wf(self.rows()),
    {
        proof {
            use_type_invariant(self);
            self.lemma_accessors();
        }
        let mut i: usize = 0;
        while i < self.memes.len()
            invariant
                i <= self.memes.len(),
                self.origins.len() == self.memes.len(),
                self.rows() == self.memes.deep_view(),
                self.origins() == self.origins.deep_view(),
                table_wf(self.rows()),
                forall|k: int| 0 <= k < i ==> (#[trigger] self.rows()[k]).id != id,
            decreases self.memes.len() - i,
        {
            if self.memes[i].id == id {
                let ip = self.origins[i].clone();
                assert(self.origins()[i as int] == ip@);
                return Some(ip);
            }
            i = i + 1;
        }
        None
    }

    /// The listing for a filter: of the memes that it selects, in the order of
    /// their ids, as many as its limit allows. A negative limit is an error.
    pub fn get_memes(&self, filter: MemeOptions) -> (r: Result<Vec<Meme>, SqlError>)
        ensures
            match r {
                Ok(memes) => {
                    &&& limit_of(filter@) >= 0
                    &&& memes.deep_view() == listed(self.rows(), filter@)
                    &&& ascending_ids(memes.deep_view())
                    &&& memes.len() <= limit_of(filter@)
                    &&& forall|k: int|
                        0 <= k < memes.len() ==> selects(filter@, #[trigger] memes.deep_view()[k])
                },
                Err(e) => limit_of(filter@) < 0 && e == SqlError::Other,
            },
            table_wf(self.rows()),
    {
        proof {
            use_type_invariant(self);
            self.lemma_accessors();
            if limit_of(filter@) >= 0 {
                lemma_listing_is_ascending(self.rows(), filter@);
            }
        }
        let limit = match filter.limit {
            Some(limit) => limit,
            None => DEFAULT_LIMIT,
        };
        if limit < 0 {
            return Err(SqlError::Other);
        }
        Ok(self.select(&filter, limit as usize))
    }

    /// One of the memes that the filter selects, whatever its limit: the one
    /// at position `draw`, counted round the selected memes. `RowNotFound`
    /// where the filter selects none.
    pub fn get_random_meme(&self, filter: MemeOptions, draw: usize) -> (r: Result<Meme, SqlError>)
        ensures
            match r {
                Ok(meme) => {
                    let hits = matching(self.rows(), filter@);
                    hits.len() > 0 && meme@ == hits[draw as int % hits.len() as int]
                },
                Err(e) => matching(self.rows(), filter@).len() == 0 && e == SqlError::RowNotFound,
            },
            table_wf(self.rows()),
    {
        proof {
            use_type_invariant(self);
            self.lemma_accessors();
            self.rows().lemma_filter_len(selecting(filter@));
        }
        let hits = self.select(&filter, self.memes.len());
        if hits.len() == 0 {
            return Err(SqlError::RowNotFound);
        }
        let at = draw % hits.len();
        Ok(hits[at].clone())
    }

    /// How many memes the filter selects, whatever its limit: the length of
    /// the listing for the filter, where the limit does not cut it short.
    pub fn count_memes(&self, filter: MemeOptions) -> (r: Result<Count, SqlError>)
        ensures
            r matches Ok(count) && count.count == counted(self.rows(), filter@),
            r matches Ok(count) && (counted(self.rows(), filter@) <= limit_of(filter@)
                ==> count.count == listed(self.rows(), filter@).len()),
            table_wf(self.rows()),
    {
        proof {
            use_type_invariant(self);
            self.lemma_accessors();
        }
        let ghost rows = self.rows();
        let ghost keep = selecting(filter@);
        let mut count: usize = 0;
        let mut i: usize = 0;
        assert(rows.take(0).filter(keep).len() == 0) by {
            reveal(Seq::filter);
        }
        while i < self.memes.len()
            invariant
                i <= self.memes.len(),
                rows == self.memes.deep_view(),
                keep == selecting(filter@),
                count == rows.take(i as int).filter(keep).len(),
                count <= i,
            decreases self.memes.len() - i,
        {
            proof {
                lemma_filter_take(rows, i as int, keep);
            }
            if selects_row(&filter, &self.memes[i]) {
                count = count + 1;
            }
            i = i + 1;
        }
        assert(rows.take(i as int) =~= rows);
        proof {
            if rows.len() > 0 {
                lemma_id_above_position(rows, rows.len() - 1);
                assert(rows[rows.len() - 1].id == self.memes[rows.len() - 1].id);
            }
        }
        Ok(Count { count: count as i64 })
    }

    /// The meme that an uploader holds under a file name: of several, the one
    /// with the highest id.
    pub fn get_user_meme(&self, user_id: String, filename: String) -> (r: Result<
        Option<Meme>,
        SqlError,
    >)
        ensures
            r matches Ok(meme) && meme.deep_view() == latest(self.rows(), user_id@, filename@),
            r matches Ok(Some(meme)) ==> is_stored_as(meme@, user_id@, filename@) && forall|i: int|
                0 <= i < self.rows().len() && is_stored_as(
                    #[trigger] self.rows()[i],
                    user_id@,
                    filename@,
                ) ==> self.rows()[i].id <= meme.id,
            table_wf(self.rows()),
    {
        proof {
            use_type_invariant(self);
            self.lemma_accessors();
            lemma_latest_is_stored(self.rows(), user_id@, filename@);
            assert forall|i: int|
                0 <= i < self.rows().len() && is_stored_as(
                    #[trigger] self.rows()[i],
                    user_id@,
                    filename@,
                ) implies self.rows()[i].id <= latest(self.rows(), user_id@, filename@)->0.id by {
                lemma_latest_has_highest_id(self.rows(), user_id@, filename@, i);
            }
        }
        match find_latest(&self.memes, &user_id, &filename) {
            Some(at) => Ok(Some(self.memes[at].clone())),
            None => Ok(None),
        }
    }

    /// The category with the given id, if there is one.
    pub fn get_category(&self, id: &String) -> (r: Result<Option<Category>, SqlError>)
        ensures
            r matches Ok(category) && category.deep_view() == first_of(
                self.category_list().filter(category_with(id@)),
            ),
    {
        proof {
            self.lemma_accessors();
        }
        let ghost list = self.category_list();
        let ghost keep = category_with(id@);
        let mut i: usize = 0;
        assert(list.take(0).filter(keep).len() == 0) by {
            reveal(Seq::filter);
        }
        while i < self.categories.len()
            invariant
                i <= self.categories.len(),
                list == self.categories.deep_view(),
                list == self.category_list(),
                keep == category_with(id@),
                list.take(i as int).filter(keep).len() == 0,
            decreases self.categories.len() - i,
        {
            if same_text(&self.categories[i].id, id) {
                proof {
                    lemma_first_hit(list, i as int, keep);
                }
                return Ok(Some(self.categories[i].clone()));
            }
            proof {
                lemma_filter_take(list, i as int, keep);
            }
            i = i + 1;
        }
        assert(list.take(i as int) =~= list);
        Ok(None)
    }

    /// All categories, in display order.
    pub fn get_categories(&self) -> (r: Result<Vec<Category>, SqlError>)
        ensures
            r matches Ok(categories) && categories.deep_view() == self.category_list(),
    {
        proof {
            self.lemma_accessors();
        }
        let mut out: Vec<Category> = Vec::new();
        let mut i: usize = 0;
        while i < self.categories.len()
            invariant
                i <= self.categories.len(),
                out.deep_view() =~= self.categories.deep_view().take(i as int),
            decreases self.categories.len() - i,
        {
            let ghost before = out.deep_view();
            let category = self.categories[i].clone();
            out.push(category);
            assert(out.deep_view() =~= before.push(category@));
            i = i + 1;
        }
        assert(out.deep_view() =~= self.categories.deep_view());
        Ok(out)
    }

    /// How many memes the user stored on the day that the store's clock shows.
    fn uploads_of(&self, userid: &String) -> (r: i32)
        ensures
            r == uploads_today(self.rows(), userid@, self.clock()),
    {
        proof {
            use_type_invariant(self);
            self.lemma_accessors();
        }
        let ghost rows = self.rows();
        let ghost keep = stored_today(userid@, self.clock());
        let today = day_index(self.now);
        let mut count: usize = 0;
        let mut i: usize = 0;
        assert(rows.take(0).filter(keep).len() == 0) by {
            reveal(Seq::filter);
        }
        while i < self.memes.len()
            invariant
                i <= self.memes.len(),
                rows == self.memes.deep_view(),
                keep == stored_today(userid@, self.now as int),
                today == day_of(self.now as int),
                count == rows.take(i as int).filter(keep).len(),
                count <= i,
            decreases self.memes.len() - i,
        {
            proof {
                lemma_filter_take(rows, i as int, keep);
            }
            if same_text(&self.memes[i].userid, userid) && day_index(self.memes[i].timestamp)
                == today {
                count = count + 1;
            }
            i = i + 1;
        }
        assert(rows.take(i as int) =~= rows);
        proof {
            if rows.len() > 0 {
                lemma_id_above_position(rows, rows.len() - 1);
                assert(rows[rows.len() - 1].id == self.memes[rows.len() - 1].id);
            }
        }
        count as i32
    }

    /// The account as the service shows it.
    fn show(&self, account: &Account) -> (r: User)
        ensures
            r@ == shown(account@, self.rows(), self.clock()),
    {
        proof {
            self.lemma_accessors();
        }
        User {
            id: account.id.clone(),
            name: account.name.clone(),
            userdir: account.id.clone(),
            tokenhash: if account.token.is_some() {
                account.tokenhash.clone()
            } else {
                String::from_str("0")
            },
            dayuploads: self.uploads_of(&account.id),
        }
    }

    /// The user that the identifier resolves to, if any.
    pub fn get_user(&self, identifier: UserIdentifier) -> (r: Result<Option<User>, SqlError>)
        ensures
            r matches Ok(user) && user.deep_view() == resolved(
                self.accounts(),
                self.rows(),
                self.clock(),
                identifier@,
            ),
    {
        proof {
            self.lemma_accessors();
        }
        let ghost accounts = self.accounts();
        let ghost keep = named_by(identifier@);
        let mut i: usize = 0;
        assert(accounts.take(0).filter(keep).len() == 0) by {
            reveal(Seq::filter);
        }
        while i < self.users.len()
            invariant
                i <= self.users.len(),
                accounts == self.users.deep_view(),
                accounts == self.accounts(),
                keep == named_by(identifier@),
                accounts.take(i as int).filter(keep).len() == 0,
            decreases self.users.len() - i,
        {
            let account = &self.users[i];
            let hit = match &identifier {
                UserIdentifier::Id(id) => same_text(&account.id, id),
                UserIdentifier::Token(token) => match &account.token {
                    Some(t) => same_text(t, token),
                    None => false,
                },
                UserIdentifier::Username(name) => same_text(&account.name, name),
                UserIdentifier::Null => same_text(&account.id, &String::from_str("000")),
            };
            assert(hit == keep(accounts[i as int]));
            if hit {
                proof {
                    lemma_first_hit(accounts, i as int, keep);
                }
                let user = match &identifier {
                    UserIdentifier::Null => User {
                        id: account.id.clone(),
                        name: account.name.clone(),
                        userdir: account.id.clone(),
                        tokenhash: String::from_str("0"),
                        dayuploads: 0,
                    },
                    _ => self.show(account),
                };
                return Ok(Some(user));
            }
            proof {
                lemma_filter_take(accounts, i as int, keep);
            }
            i = i + 1;
        }
        assert(accounts.take(i as int) =~= accounts);
        Ok(None)
    }

    /// All users, each as the service shows it.
    pub fn get_users(&self) -> (r: Result<Vec<User>, SqlError>)
        ensures
            r matches Ok(users) && users.len() == self.accounts().len() && forall|i: int|
                0 <= i < users.len() ==> (#[trigger] users[i])@ == shown(
                    self.accounts()[i],
                    self.rows(),
                    self.clock(),
                ),
    {
        proof {
            self.lemma_accessors();
        }
        let mut out: Vec<User> = Vec::new();
        let mut i: usize = 0;
        while i < self.users.len()
            invariant
                i <= self.users.len(),
                out.len() == i,
                forall|k: int|
                    0 <= k < i ==> (#[trigger] out[k])@ == shown(
                        self.users.deep_view()[k],
                        self.rows(),
                        self.clock(),
                    ),
            decreases self.users.len() - i,
        {
            let user = self.show(&self.users[i]);
            out.push(user);
            i = i + 1;
        }
        Ok(out)
    }

    /// The user of an upload token, if any.
    pub fn check_token(&self, token: &String) -> (r: Result<Option<User>, SqlError>)
        ensures
            r matches Ok(user) && user.deep_view() == resolved(
                self.accounts(),
                self.rows(),
                self.clock(),
                UserIdentifierView::Token(token@),
            ),
    {
        self.get_user(UserIdentifier::Token(token.clone()))
    }

    /// Whether the uploader holds a row under the file name.
    fn holds(&self, userid: &String, filename: &String) -> (r: bool)
        ensures
            r == (self.rows().filter(stored_as(userid@, filename@)).len() > 0),
    {
        proof {
            self.lemma_accessors();
        }
        let ghost rows = self.rows();
        let ghost keep = stored_as(userid@, filename@);
        let mut i: usize = 0;
        assert(rows.take(0).filter(keep).len() == 0) by {
            reveal(Seq::filter);
        }
        while i < self.memes.len()
            invariant
                i <= self.memes.len(),
                rows == self.memes.deep_view(),
                rows == self.rows(),
                keep == stored_as(userid@, filename@),
                rows.take(i as int).filter(keep).len() == 0,
            decreases self.memes.len() - i,
        {
            if same_text(&self.memes[i].userid, userid) && same_text(
                &self.memes[i].filename,
                filename,
            ) {
                proof {
                    lemma_first_hit(rows, i as int, keep);
                }
                return true;
            }
            proof {
                lemma_filter_take(rows, i as int, keep);
            }
            i = i + 1;
        }
        assert(rows.take(i as int) =~= rows);
        false
    }

    /// Inserts the row of a stored file for a user in a category, as one step:
    /// the row gets the next id and the time that the store's clock shows, and
    /// the id is returned. Where the next id is out of range, or the user has
    /// a row under the file's name already, nothing is inserted and the
    /// operation fails. The client's address is kept beside the row.
    pub fn add_meme_sql(
        &mut self,
        user: &User,
        file: &IPFSFile,
        ip: &String,
        category: &Category,
    ) -> (r: Result<i32, SqlError>)
        ensures
            match r {
                Ok(id) => {
                    &&& insertable(old(self).rows(), user@.id, file@.name)
                    &&& id == next_id(old(self).rows())
                    &&& final(self).rows() == old(self).rows().push(
                        new_row(old(self).rows(), user@, file@, category@, old(self).clock()),
                    )
                    &&& found(final(self).rows(), id as int) == Some(
                        new_row(old(self).rows(), user@, file@, category@, old(self).clock()),
                    )
                    &&& final(self).origins() == old(self).origins().push(ip@)
                },
                Err(e) => {
                    &&& !insertable(old(self).rows(), user@.id, file@.name)
                    &&& e == SqlError::Other
                    &&& final(self).rows() == old(self).rows()
                    &&& final(self).origins() == old(self).origins()
                },
            },
            table_wf(old(self).rows()),
            table_wf(final(self).rows()),
            final(self).origins().len() == final(self).rows().len(),
            final(self).accounts() == old(self).accounts(),
            final(self).category_list() == old(self).category_list(),
            final(self).clock() == old(self).clock(),
            final(self).ipfs_base() == old(self).ipfs_base(),
            final(self).int_cdn() == old(self).int_cdn(),
            final(self).ext_cdn() == old(self).ext_cdn(),
            final(self).matrix_base() == old(self).matrix_base(),
            final(self).matrix_secret() == old(self).matrix_secret(),
            final(self).matrix_realm() == old(self).matrix_realm(),
    {
        proof {
            use_type_invariant(&*self);
            self.lemma_accessors();
        }
        let ghost rows = self.rows();
        let n = self.memes.len();
        let id: i32 = if n == 0 {
            1
        } else {
            let last = self.memes[n - 1].id;
            assert(last == rows[n - 1].id);
            if last == i32::MAX {
                return Err(SqlError::Other);
            }
            last + 1
        };
        if self.holds(&user.id, &file.name) {
            return Err(SqlError::Other);
        }
        let row = Meme {
            id,
            filename: file.name.clone(),
            userid: user.id.clone(),
            username: user.name.clone(),
            category: category.id.clone(),
            timestamp: self.now,
            ipfs: file.hash.clone(),
        };
        proof {
            lemma_appended_is_well_formed(rows, row@);
            lemma_inserted_is_found(rows, row@);
        }
        let mut memes: Vec<Meme> = Vec::new();
        let mut origins: Vec<String> = Vec::new();
        assert(memes.deep_view() =~= Seq::<MemeView>::empty());
        let mut taken = JMServiceInner {
            memes,
            origins,
            categories: Vec::new(),
            users: Vec::new(),
            now: 0,
            ipfs_url: String::new(),
            int_cdn: String::new(),
            ext_cdn: String::new(),
            matrix_url: String::new(),
            matrix_token: String::new(),
            matrix_domain: String::new(),
        };
        std::mem::swap(self, &mut taken);
        let ghost before = taken;
        let JMServiceInner {
            memes,
            origins,
            categories,
            users,
            now,
            ipfs_url,
            int_cdn,
            ext_cdn,
            matrix_url,
            matrix_token,
            matrix_domain,
        } = taken;
        let mut memes = memes;
        let mut origins = origins;
        let ghost sent = origins.deep_view();
        memes.push(row);
        origins.push(ip.clone());
        assert(memes.deep_view() =~= rows.push(row@));
        assert(origins.deep_view() =~= sent.push(ip@));
        let mut grown = JMServiceInner {
            memes,
            origins,
            categories,
            users,
            now,
            ipfs_url,
            int_cdn,
            ext_cdn,
            matrix_url,
            matrix_token,
            matrix_domain,
        };
        std::mem::swap(self, &mut grown);
        proof {
            before.lemma_accessors();
            self.lemma_accessors();
        }
        Ok(id)
    }
}

/// A well-formed table stays so when a row is appended under the next id for
/// an uploader who holds no row under its file name.
pub proof fn lemma_appended_is_well_formed(rows: Seq<MemeView>, row: MemeView)
    requires
        table_wf(rows),
        row.id == next_id(rows),
        rows.filter(stored_as(row.userid, row.filename)).len() == 0,
    ensures
        table_wf(rows.push(row)),
{
    lemma_inserted_is_found(rows, row);
    let grown = rows.push(row);
    assert forall|i: int, j: int| 0 <= i < j < grown.len() implies !(grown[i].userid
        == grown[j].userid && grown[i].filename == grown[j].filename) by {
        if j == rows.len() {
            if rows[i].userid == row.userid && rows[i].filename == row.filename {
                lemma_filter_keeps(rows, stored_as(row.userid, row.filename), i);
            }
        }
    }
}

} // verus!
