//! Apps: the pattern a search is made with, and the records of the rows that
//! come back.

use crate::models::app::{App, CreateAppForm};
use vstd::prelude::*;
use vstd::string::StringExecFns;

verus! {

/// The pattern that matches the names that contain `part`.
pub open spec fn containing(part: Seq<char>) -> Seq<char> {
    "%"@ + part + "%"@
}

/// The `LIKE` pattern for the names that contain `part`.
pub fn like_pattern(part: &str) -> (pattern: String)
    ensures
        pattern@ == containing(part@),
{
    let mut pattern = String::from_str("%");
    pattern.append(part);
    pattern.append("%");
    pattern
}

/// A column that may be null, read as text: nothing for null.
pub open spec fn text_or_empty(column: Option<String>) -> Seq<char> {
    match column {
        Some(text) => text@,
        None => Seq::empty(),
    }
}

/// The app that a row of the store stands for. A description or an address
/// that is null is empty.
pub fn app_of_row(
    id: i64,
    name: String,
    description: Option<String>,
    url: Option<String>,
    created_at: String,
    updated_at: String,
) -> (app: App)
    ensures
        app.id == id,
        app.name == name,
        app.description@ == text_or_empty(description),
        app.url@ == text_or_empty(url),
        app.created_at == created_at,
        app.updated_at == updated_at,
{
    App {
        id,
        name,
        description: match description {
            Some(text) => text,
            None => String::new(),
        },
        url: match url {
            Some(text) => text,
            None => String::new(),
        },
        created_at,
        updated_at,
    }
}

/// The app that was created from `form`, under the identifier and with the
/// times that the store gave it.
pub fn created_app(id: i64, form: CreateAppForm, created_at: String, updated_at: String) -> (app:
    App)
    ensures
        app.id == id,
        app.name == form.name,
        app.description == form.description,
        app.url == form.url,
        app.created_at == created_at,
        app.updated_at == updated_at,
{
    App {
        id,
        name: form.name,
        description: form.description,
        url: form.url,
        created_at,
        updated_at,
    }
}

} // verus!
