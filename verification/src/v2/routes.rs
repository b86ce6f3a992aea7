//! The decisions of the resource-nested endpoints: what is asked of the store,
//! and how its answer is shown.

use vstd::prelude::*;
use crate::codec::{decode, percent_decoded};
use crate::error::{APIError, APIErrorView, SqlError};
use crate::models::{Category, Count, Meme, MemeOptions, User, UserIdentifier, UserIdentifierView};
use crate::models::number_view;
use crate::v2::models::{MemeFilterQuery, V2Meme, V2User};

verus! {

/// Answers the request for one meme: "Meme not found" where the store holds
/// none, the store's failure otherwise.
pub fn get_meme(found: Result<Option<Meme>, SqlError>) -> (r: Result<V2Meme, APIError>)
    ensures
        match found {
            Ok(Some(m)) => r matches Ok(shown) && shown.shows(m@),
            Ok(None) => r matches Err(e) && e@ == APIErrorView::NotFound("Meme not found"@),
            Err(failure) => r matches Err(e) && e@ == APIErrorView::Sql(failure),
        },
{
    match found {
        Ok(Some(m)) => Ok(V2Meme::from(m)),
        Ok(None) => Err(APIError::not_found("Meme not found")),
        Err(failure) => Err(APIError::Sql(failure)),
    }
}

/// Answers the request for a listing: the memes in the order in which the
/// store returned them.
pub fn get_memes(found: Result<Vec<Meme>, SqlError>) -> (r: Result<Vec<V2Meme>, APIError>)
    ensures
        match found {
            Ok(rows) => {
                &&& r matches Ok(list)
                &&& list.len() == rows.len()
                &&& forall|i: int| 0 <= i < list.len() ==> (#[trigger] list[i]).shows(rows[i]@)
            },
            Err(failure) => r matches Err(e) && e@ == APIErrorView::Sql(failure),
        },
{
    match found {
        Ok(rows) => {
            let mut list: Vec<V2Meme> = Vec::new();
            let mut i: usize = 0;
            while i < rows.len()
                invariant
                    i <= rows.len(),
                    list.len() == i,
                    forall|k: int| 0 <= k < i ==> (#[trigger] list[k]).shows(rows[k]@),
                decreases rows.len() - i,
            {
                list.push(V2Meme::from(rows[i].clone()));
                i = i + 1;
            }
            Ok(list)
        },
        Err(failure) => Err(APIError::Sql(failure)),
    }
}

/// Answers the request for a random meme: the store's failure where the
/// filter selects none.
pub fn get_random_meme(found: Result<Meme, SqlError>) -> (r: Result<V2Meme, APIError>)
    ensures
        match found {
            Ok(m) => r matches Ok(shown) && shown.shows(m@),
            Err(failure) => r matches Err(e) && e@ == APIErrorView::Sql(failure),
        },
{
    match found {
        Ok(m) => Ok(V2Meme::from(m)),
        Err(failure) => Err(APIError::Sql(failure)),
    }
}

/// Answers the request for a count.
pub fn count_memes(found: Result<Count, SqlError>) -> (r: Result<Count, APIError>)
    ensures
        match found {
            Ok(count) => r == Ok::<Count, APIError>(count),
            Err(failure) => r matches Err(e) && e@ == APIErrorView::Sql(failure),
        },
{
    match found {
        Ok(count) => Ok(count),
        Err(failure) => Err(APIError::Sql(failure)),
    }
}

/// Answers the request for one category: "Category not found" where the
/// store holds none.
pub fn get_category(found: Result<Option<Category>, SqlError>) -> (r: Result<Category, APIError>)
    ensures
        match found {
            Ok(Some(c)) => r == Ok::<Category, APIError>(c),
            Ok(None) => r matches Err(e) && e@ == APIErrorView::NotFound("Category not found"@),
            Err(failure) => r matches Err(e) && e@ == APIErrorView::Sql(failure),
        },
{
    match found {
        Ok(Some(c)) => Ok(c),
        Ok(None) => Err(APIError::not_found("Category not found")),
        Err(failure) => Err(APIError::Sql(failure)),
    }
}

/// Answers the request for all categories.
pub fn get_categories(found: Result<Vec<Category>, SqlError>) -> (r: Result<
    Vec<Category>,
    APIError,
>)
    ensures
        match found {
            Ok(list) => r == Ok::<Vec<Category>, APIError>(list),
            Err(failure) => r matches Err(e) && e@ == APIErrorView::Sql(failure),
        },
{
    match found {
        Ok(list) => Ok(list),
        Err(failure) => Err(APIError::Sql(failure)),
    }
}

/// The identifier of the user of a path: the user is named by id.
pub fn user_of_path(user_id: String) -> (r: UserIdentifier)
    ensures
        r@ == UserIdentifierView::Id(user_id@),
{
    UserIdentifier::Id(user_id)
}

/// Answers the request for one user: "User not found" where the store holds
/// none.
pub fn get_user(found: Result<Option<User>, SqlError>) -> (r: Result<V2User, APIError>)
    ensures
        match found {
            Ok(Some(u)) => r matches Ok(shown) && shown.shows(u@),
            Ok(None) => r matches Err(e) && e@ == APIErrorView::NotFound("User not found"@),
            Err(failure) => r matches Err(e) && e@ == APIErrorView::Sql(failure),
        },
{
    match found {
        Ok(Some(u)) => Ok(V2User::from(u)),
        Ok(None) => Err(APIError::not_found("User not found")),
        Err(failure) => Err(APIError::Sql(failure)),
    }
}

/// Answers the request for all users, in the order in which the store
/// returned them.
pub fn get_users(found: Result<Vec<User>, SqlError>) -> (r: Result<Vec<V2User>, APIError>)
    ensures
        match found {
            Ok(rows) => {
                &&& r matches Ok(list)
                &&& list.len() == rows.len()
                &&& forall|i: int| 0 <= i < list.len() ==> (#[trigger] list[i]).shows(rows[i]@)
            },
            Err(failure) => r matches Err(e) && e@ == APIErrorView::Sql(failure),
        },
{
    match found {
        Ok(rows) => {
            let mut list: Vec<V2User> = Vec::new();
            let mut i: usize = 0;
            while i < rows.len()
                invariant
                    i <= rows.len(),
                    list.len() == i,
                    forall|k: int| 0 <= k < i ==> (#[trigger] list[k]).shows(rows[k]@),
                decreases rows.len() - i,
            {
                list.push(V2User::from(rows[i].clone()));
                i = i + 1;
            }
            Ok(list)
        },
        Err(failure) => Err(APIError::Sql(failure)),
    }
}

/// The filter for the memes of one user: of the query only the limit and the
/// cursor count, and the user is named by id.
pub fn get_user_memes(filter: MemeFilterQuery, user_id: String) -> (r: MemeOptions)
    ensures
        r@.category is None,
        r@.user_id == Some(user_id@),
        r@.username is None,
        r@.search is None,
        r@.limit == number_view(filter.limit),
        r@.after == number_view(filter.after),
{
    MemeOptions {
        category: None,
        user_id: Some(user_id),
        username: None,
        search: None,
        limit: filter.limit,
        after: filter.after,
    }
}

/// The file name that a path segment stands for. Fails with
/// [`APIError::Decode`] where the segment does not decode to UTF-8.
pub fn decode_filename(segment: &str) -> (r: Result<String, APIError>)
    ensures
        match r {
            Ok(filename) => percent_decoded(segment@) == Some(filename@),
            Err(e) => percent_decoded(segment@) is None && e@ == APIErrorView::Decode,
        },
{
    match decode(segment) {
        Some(filename) => Ok(filename),
        None => Err(APIError::Decode),
    }
}

/// Answers the request for the meme that a user holds under a file name:
/// "Meme not found" where the user holds none.
pub fn get_user_meme(found: Result<Option<Meme>, SqlError>) -> (r: Result<V2Meme, APIError>)
    ensures
        match found {
            Ok(Some(m)) => r matches Ok(shown) && shown.shows(m@),
            Ok(None) => r matches Err(e) && e@ == APIErrorView::NotFound("Meme not found"@),
            Err(failure) => r matches Err(e) && e@ == APIErrorView::Sql(failure),
        },
{
    get_meme(found)
}

} // verus!
