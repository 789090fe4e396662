//! The handlers of apps.

use crate::models::app::{AppSearch, AppWithPages};
use crate::models::page::Page;
use crate::routes::{read_status, read_status_of};
use crate::store::StoreError;
use crate::text::{blank, is_blank};
use vstd::prelude::*;

verus! {

/// The status of the answer to a request for an app with its pages.
pub fn find_by_id_status(outcome: &Result<AppWithPages, StoreError>) -> (status: u16)
    ensures
        status == read_status_of(*outcome),
{
    read_status(outcome)
}

/// The status of the answer to a request for the pages of an app.
pub fn find_pages_status(outcome: &Result<Vec<Page>, StoreError>) -> (status: u16)
    ensures
        status == read_status_of(*outcome),
{
    read_status(outcome)
}

/// Tells whether a search is answered with nothing, without asking the
/// store: a name of white space alone would match every app.
pub fn search_is_empty(params: &AppSearch) -> (skip: bool)
    ensures
        skip == is_blank(params.name@),
{
    blank(params.name.as_str())
}

/// The template of an app's page, where the app was found; an app that was
/// not gets an empty page.
pub fn app_template<'a>(outcome: &Result<AppWithPages, StoreError>, template: &'a str) -> (r:
    Option<&'a str>)
    ensures
        r == if outcome is Ok {
            Some(template)
        } else {
            None
        },
{
    match outcome {
        Ok(_) => Some(template),
        Err(_) => None,
    }
}

} // verus!
