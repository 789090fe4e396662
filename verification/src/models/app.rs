//! Apps.

use crate::models::page::Page;
use vstd::prelude::*;

verus! {

/// An app.
#[derive(Debug)]
pub struct App {
    pub id: i64,
    pub name: String,
    pub description: String,
    pub url: String,
    pub created_at: String,
    pub updated_at: String,
}

/// An app with the pages it owns.
#[derive(Debug)]
pub struct AppWithPages {
    pub app: App,
    pub pages: Vec<Page>,
}

/// A search for apps by a part of their name.
#[derive(Debug)]
pub struct AppSearch {
    pub name: String,
}

/// What is submitted to create an app.
#[derive(Debug)]
pub struct CreateAppForm {
    pub name: String,
    pub description: String,
    pub url: String,
}

} // verus!
