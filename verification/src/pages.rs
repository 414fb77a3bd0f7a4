//! The HTML-facing data: request parameters, configuration, page templates,
//! the paste record, and the decisions of the paste page.

use vstd::prelude::*;

use crate::slug::{is_valid_slug, Slug, SlugString};
use crate::store::User;

verus! {

/// Parameters passed to the authentication handlers.
pub struct AuthParams {
    /// The user's username as stored.
    pub username: String,
}

/// The configuration parameters for the application.
pub struct Config {
    /// The connection URL for the database this application should use.
    pub database_url: String,
}

/// A generic error response for the API to return to clients.
pub struct ApiError {
    pub message: String,
}

/// The index page, presenting the upload form, and the user it greets.
pub struct IndexTemplate {
    pub user: Option<User>,
}

/// The authentication page, presenting a login form.
pub struct AuthTemplate;

/// The paste creation page, presenting a form for a new paste.
pub struct PasteCreationTemplate;

/// A card showing one paste's content.
pub struct PasteCard {
    pub content: String,
}

/// The paste page, showing one paste.
pub struct PasteTemplate {
    pub paste_card: PasteCard,
}

/// The error page, showing a message.
pub struct ErrorTemplate {
    pub error: String,
}

/// A text paste record.
/// Timestamps are seconds since an epoch chosen by the caller.
pub struct Paste {
    pub id: i32,
    pub user_id: Option<i32>,
    pub title: Option<String>,
    pub content: String,
    pub created_at: u64,
    pub expires_at: Option<u64>,
}

/// An error in a context where an HTML page is expected: it is rendered as
/// an error page with a status code.
#[derive(Debug)]
pub enum HtmlPageError {
    /// The given path is not a well-formed slug.
    InvalidPath(String),
    /// The resource could not be found.
    NotFound,
    /// The persistent store could not be queried.
    DatabaseError,
}

impl HtmlPageError {
    /// The HTTP status code this error page is served with.
    pub fn to_status_code(&self) -> (r: u16)
        ensures
            r == match self {
                HtmlPageError::InvalidPath(_) => 400u16,
                HtmlPageError::NotFound => 404u16,
                HtmlPageError::DatabaseError => 500u16,
            },
    {
        match self {
            HtmlPageError::InvalidPath(_) => 400,
            HtmlPageError::NotFound => 404,
            HtmlPageError::DatabaseError => 500,
        }
    }
}

/// The first decision of the paste page: a path that is not a well-formed
/// slug is rejected before the store is asked anything.
pub fn page_check_slug(slug_path: &str) -> (r: Result<(), HtmlPageError>)
    ensures
        r is Ok <==> is_valid_slug(slug_path@),
        r matches Err(e) ==> (e matches HtmlPageError::InvalidPath(p) && p@ == slug_path@),
{
    if SlugString::is_valid(slug_path) {
        Ok(())
    } else {
        Err(HtmlPageError::InvalidPath(slug_path.to_owned()))
    }
}

/// The second decision of the paste page: a slug that does not exist or is
/// not enabled reads as not found; otherwise the paste it points at is
/// looked up next.
pub fn page_select_paste(slug: Option<Slug>) -> (r: Result<Option<i32>, HtmlPageError>)
    ensures
        match slug {
            None => r matches Err(HtmlPageError::NotFound),
            Some(s) => {
                if s.enabled is None {
                    r matches Err(HtmlPageError::NotFound)
                } else {
                    r == Ok::<Option<i32>, HtmlPageError>(s.paste_id)
                }
            },
        },
{
    match slug {
        None => Err(HtmlPageError::NotFound),
        Some(s) => {
            if s.enabled.is_none() {
                Err(HtmlPageError::NotFound)
            } else {
                Ok(s.paste_id)
            }
        },
    }
}

/// The last step of the paste page: a missing paste reads as not found;
/// otherwise the page shows the paste's content.
pub fn page_render(paste: Option<Paste>) -> (r: Result<PasteTemplate, HtmlPageError>)
    ensures
        match paste {
            None => r matches Err(HtmlPageError::NotFound),
            Some(p) => r matches Ok(t) && t.paste_card.content == p.content,
        },
{
    match paste {
        None => Err(HtmlPageError::NotFound),
        Some(p) => Ok(PasteTemplate { paste_card: PasteCard { content: p.content } }),
    }
}

} // verus!
