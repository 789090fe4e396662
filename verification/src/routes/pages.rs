//! The handlers of pages.

use crate::decimal::{decimal, format_i64};
use crate::models::page::{Page, PageWithContent};
use crate::routes::{Notice, NoticeText};
use crate::store::StoreError;
use vstd::prelude::*;
use vstd::string::StringExecFns;

verus! {

/// The template for a page that was asked for: `found` where the store has
/// the page, the shared page for what is missing where it has not, the shared
/// page for failures otherwise.
pub fn page_template(outcome: &Result<PageWithContent, StoreError>, found: &'static str) -> (r:
    &'static str)
    ensures
        r@ == match *outcome {
            Ok(_) => found@,
            Err(StoreError::RowNotFound) => "shared/404.html"@,
            Err(_) => "shared/500.html"@,
        },
{
    match outcome {
        Ok(_) => found,
        Err(StoreError::RowNotFound) => "shared/404.html",
        Err(_) => "shared/500.html",
    }
}

/// Where the browser is sent once a page of the app `app_id` was created.
pub open spec fn app_path(app_id: i64) -> Seq<char> {
    "/apps/"@ + decimal(app_id as int)
}

/// The answer to an attempt to create a page.
#[derive(Debug)]
pub enum CreatePageReply {
    /// The page was created: the browser goes to its app.
    Redirect(String),
    /// The form is shown again with a message.
    Retry(Notice),
}

/// What the visitor is told when a page could not be created.
pub open spec fn create_page_failure_text(error: StoreError) -> Seq<char> {
    match error {
        StoreError::UniqueViolation => "Page name already exists for this app."@,
        StoreError::ForeignKeyViolation => "The provided App ID is not valid."@,
        _ => "Something went wrong creating the page."@,
    }
}

/// The answer to an attempt to create a page.
pub fn create_page_reply(outcome: &Result<Page, StoreError>) -> (reply: CreatePageReply)
    ensures
        match *outcome {
            Ok(page) => reply matches CreatePageReply::Redirect(path) && path@ == app_path(
                page.app_id,
            ),
            Err(error) => reply matches CreatePageReply::Retry(notice) && notice@
                == NoticeText::Error(create_page_failure_text(error)),
        },
{
    match outcome {
        Ok(page) => {
            let mut path = String::from_str("/apps/");
            path.append(format_i64(page.app_id).as_str());
            CreatePageReply::Redirect(path)
        },
        Err(StoreError::UniqueViolation) => CreatePageReply::Retry(
            Notice::Error("Page name already exists for this app."),
        ),
        Err(StoreError::ForeignKeyViolation) => CreatePageReply::Retry(
            Notice::Error("The provided App ID is not valid."),
        ),
        Err(_) => CreatePageReply::Retry(Notice::Error("Something went wrong creating the page.")),
    }
}

} // verus!
