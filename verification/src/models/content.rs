//! Blocks of content.

use crate::models::page::PageWithContent;
use vstd::prelude::*;

verus! {

/// The page whose content is asked for.
#[derive(Debug)]
pub struct FindContentByPageIdParams {
    pub page_id: i64,
}

/// A named block of content on a page.
#[derive(Debug)]
pub struct Content {
    pub id: i64,
    pub page_id: i64,
    pub name: String,
    pub body: String,
    pub created_at: String,
    pub updated_at: String,
}

/// A block of content together with the page it is on.
#[derive(Debug)]
pub struct FullContent {
    pub content: Content,
    pub page: PageWithContent,
}

/// What is submitted to create a block of content.
#[derive(Debug, Clone)]
pub struct NewContentRequest {
    pub page_id: i64,
    pub name: String,
    pub body: String,
}

/// What is submitted to create a block of content on a page that is known by
/// its name: the block's own name and its text.
#[derive(Debug)]
pub struct CreateContentRequest {
    pub content_id: String,
    pub content: String,
}

/// What is submitted to change a block of content.
#[derive(Debug)]
pub struct UpdateContentRequest {
    pub content_id: i64,
    pub name: String,
    pub body: String,
}

} // verus!
