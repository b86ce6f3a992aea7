//! The service context: the tables and the addresses that every endpoint
//! works with. It is made once and handed to each of them.

use vstd::prelude::*;
use crate::models::{Category, CategoryView, Meme, MemeView};
use crate::tables::{ascending_ids, positive_ids, unique_names};

verus! {

/// A user as the store holds it: the upload token, where the user has one,
/// and the hash under which the service shows it.
#[derive(Debug, PartialEq, Eq)]
pub struct Account {
    pub id: String,
    pub name: String,
    pub token: Option<String>,
    pub tokenhash: String,
}

/// The mathematical value of an [`Account`].
pub struct AccountView {
    pub id: Seq<char>,
    pub name: Seq<char>,
    pub token: Option<Seq<char>>,
    pub tokenhash: Seq<char>,
}

impl View for Account {
    type V = AccountView;

    open spec fn view(&self) -> AccountView {
        AccountView {
            id: self.id@,
            name: self.name@,
            token: self.token.deep_view(),
            tokenhash: self.tokenhash@,
        }
    }
}

impl DeepView for Account {
    type V = AccountView;

    open spec fn deep_view(&self) -> AccountView {
        self@
    }
}

/// What the service is started with.
#[derive(Debug, PartialEq, Eq)]
pub struct Config {
    /// The address to listen on.
    pub addr: String,
    /// The connection string of the relational store.
    pub database: String,
    /// The base address of the files inside the deployment.
    pub int_cdn: String,
    /// The public base address of the files.
    pub ext_cdn: String,
    /// The base address of the blob gateway.
    pub ipfs_api: String,
    /// The base address of the chat bridge.
    pub matrix_url: String,
    /// The token that the chat bridge accepts.
    pub matrix_token: String,
    /// The domain of the chat users.
    pub matrix_domain: String,
}

/// The rows of a meme table are in the order of their ids, which are positive,
/// and no uploader has two rows under one file name.
pub open spec fn table_wf(rows: Seq<MemeView>) -> bool {
    &&& ascending_ids(rows)
    &&& positive_ids(rows)
    &&& unique_names(rows)
}

/// The service context.
#[derive(Debug)]
pub struct JMServiceInner {
    pub(crate) memes: Vec<Meme>,
    pub(crate) origins: Vec<String>,
    pub(crate) categories: Vec<Category>,
    pub(crate) users: Vec<Account>,
    pub(crate) now: i32,
    pub(crate) ipfs_url: String,
    pub(crate) int_cdn: String,
    pub(crate) ext_cdn: String,
    pub(crate) matrix_url: String,
    pub(crate) matrix_token: String,
    pub(crate) matrix_domain: String,
}

impl JMServiceInner {
    #[verifier::type_invariant]
    pub(crate) open spec fn well_formed(self) -> bool {
        &&& table_wf(self.memes.deep_view())
        &&& self.origins.len() == self.memes.len()
    }

    /// The rows of the meme table, in the order of their ids.
    pub closed spec fn rows(&self) -> Seq<MemeView> {
        self.memes.deep_view()
    }

    /// The address of the client that sent each row, in the order of the rows.
    pub closed spec fn origins(&self) -> Seq<Seq<char>> {
        self.origins.deep_view()
    }

    /// The users, in the order in which the store lists them.
    pub closed spec fn accounts(&self) -> Seq<AccountView> {
        self.users.deep_view()
    }

    /// The categories, in display order.
    pub closed spec fn category_list(&self) -> Seq<CategoryView> {
        self.categories.deep_view()
    }

    /// The time of the store, in seconds since the epoch.
    pub closed spec fn clock(&self) -> int {
        self.now as int
    }

    /// The base address of the blob gateway.
    pub closed spec fn ipfs_base(&self) -> Seq<char> {
        self.ipfs_url@
    }

    /// The base address of the files inside the deployment.
    pub closed spec fn int_cdn(&self) -> Seq<char> {
        self.int_cdn@
    }

    /// The public base address of the files.
    pub closed spec fn ext_cdn(&self) -> Seq<char> {
        self.ext_cdn@
    }

    /// The base address of the chat bridge.
    pub closed spec fn matrix_base(&self) -> Seq<char> {
        self.matrix_url@
    }

    /// The token that the chat bridge accepts.
    pub closed spec fn matrix_secret(&self) -> Seq<char> {
        self.matrix_token@
    }

    /// The domain of the chat users.
    pub closed spec fn matrix_realm(&self) -> Seq<char> {
        self.matrix_domain@
    }

    /// The base address of the files inside the deployment.
    pub fn int_cdn_url(&self) -> (r: String)
        ensures
            r@ == self.int_cdn(),
    {
        self.int_cdn.clone()
    }

    /// The public base address of the files.
    pub fn ext_cdn_url(&self) -> (r: String)
        ensures
            r@ == self.ext_cdn(),
    {
        self.ext_cdn.clone()
    }

    /// Sets the time of the store. Nothing else changes.
    pub fn set_clock(&mut self, now: i32)
        ensures
            final(self).clock() == now,
            final(self).rows() == old(self).rows(),
            final(self).origins() == old(self).origins(),
            final(self).accounts() == old(self).accounts(),
            final(self).category_list() == old(self).category_list(),
            final(self).ipfs_base() == old(self).ipfs_base(),
            final(self).int_cdn() == old(self).int_cdn(),
            final(self).ext_cdn() == old(self).ext_cdn(),
            final(self).matrix_base() == old(self).matrix_base(),
            final(self).matrix_secret() == old(self).matrix_secret(),
            final(self).matrix_realm() == old(self).matrix_realm(),
    {
        proof {
            use_type_invariant(&*self);
        }
        self.now = now;
    }

    /// What the accessors stand for, for the other modules of the crate.
    pub(crate) proof fn lemma_accessors(&self)
        ensures
            self.rows() == self.memes.deep_view(),
            self.origins() == self.origins.deep_view(),
            self.accounts() == self.users.deep_view(),
            self.category_list() == self.categories.deep_view(),
            self.clock() == self.now,
            self.ipfs_base() == self.ipfs_url@,
            self.int_cdn() == self.int_cdn@,
            self.ext_cdn() == self.ext_cdn@,
            self.matrix_base() == self.matrix_url@,
            self.matrix_secret() == self.matrix_token@,
            self.matrix_realm() == self.matrix_domain@,
            self.origins().len() == self.origins.len(),
    {
    }
}

impl Config {
    /// The service for this configuration, over a store that holds the given
    /// users and categories, no meme yet, and whose clock shows 0.
    pub fn service(&self, users: Vec<Account>, categories: Vec<Category>) -> (r: JMServiceInner)
        ensures
            r.rows() == Seq::<MemeView>::empty(),
            r.origins() == Seq::<Seq<char>>::empty(),
            r.accounts() == users.deep_view(),
            r.category_list() == categories.deep_view(),
            r.clock() == 0,
            r.ipfs_base() == self.ipfs_api@,
            r.int_cdn() == self.int_cdn@,
            r.ext_cdn() == self.ext_cdn@,
            r.matrix_base() == self.matrix_url@,
            r.matrix_secret() == self.matrix_token@,
            r.matrix_realm() == self.matrix_domain@,
    {
        let memes: Vec<Meme> = Vec::new();
        let origins: Vec<String> = Vec::new();
        assert(memes.deep_view() =~= Seq::<MemeView>::empty());
        assert(origins.deep_view() =~= Seq::<Seq<char>>::empty());
        JMServiceInner {
            memes,
            origins,
            categories,
            users,
            now: 0,
            ipfs_url: self.ipfs_api.clone(),
            int_cdn: self.int_cdn.clone(),
            ext_cdn: self.ext_cdn.clone(),
            matrix_url: self.matrix_url.clone(),
            matrix_token: self.matrix_token.clone(),
            matrix_domain: self.matrix_domain.clone(),
        }
    }
}

} // verus!
