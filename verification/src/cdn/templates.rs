//! The directory pages of the file tree.

use vstd::prelude::*;

verus! {

/// A page that is rendered as HTML.
#[derive(Debug, PartialEq, Eq)]
pub struct HtmlTemplate<T>(pub T);

/// A directory page: each entry is linked as the prefix, a slash, the entry
/// and the suffix.
#[derive(Debug, PartialEq, Eq)]
pub struct DirTemplate {
    pub entries: Vec<String>,
    pub prefix: String,
    pub suffix: String,
}

/// The page of the root: one directory for each user, linked under the base
/// address of the files.
pub fn users(entries: Vec<String>, cdn_url: String) -> (r: HtmlTemplate<DirTemplate>)
    ensures
        r.0.entries == entries,
        r.0.prefix@ == cdn_url@,
        r.0.suffix@ == "/"@,
{
    HtmlTemplate(DirTemplate { entries, prefix: cdn_url, suffix: String::from_str("/") })
}

/// The page of a user: one file for each meme, linked beside the page.
pub fn memes(entries: Vec<String>) -> (r: HtmlTemplate<DirTemplate>)
    ensures
        r.0.entries == entries,
        r.0.prefix@ == "."@,
        r.0.suffix@ == ""@,
{
    HtmlTemplate(DirTemplate { entries, prefix: String::from_str("."), suffix: String::from_str("") })
}

} // verus!
