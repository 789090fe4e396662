//! The handlers of content.

use crate::models::content::{Content, FullContent};
use crate::routes::{read_status, read_status_of, Notice, NoticeText, INTERNAL_SERVER_ERROR, NOT_FOUND, OK};
use crate::store::StoreError;
use vstd::prelude::*;

verus! {

/// The content to list for a page: a page without content has an empty list,
/// and only a failure of the store fails the request.
pub fn listed(outcome: Result<Vec<Content>, StoreError>) -> (r: Result<Vec<Content>, u16>)
    ensures
        match outcome {
            Ok(contents) => r == Ok::<Vec<Content>, u16>(contents),
            Err(StoreError::RowNotFound) => r matches Ok(contents) && contents@.len() == 0,
            Err(_) => r == Err::<Vec<Content>, u16>(INTERNAL_SERVER_ERROR),
        },
{
    match outcome {
        Ok(contents) => Ok(contents),
        Err(StoreError::RowNotFound) => Ok(Vec::new()),
        Err(_) => Err(INTERNAL_SERVER_ERROR),
    }
}

/// The status of the answer to a request for the editor of a block of
/// content.
pub fn edit_status(outcome: &Result<FullContent, StoreError>) -> (status: u16)
    ensures
        status == read_status_of(*outcome),
{
    read_status(outcome)
}

/// What the visitor is told when a block of content could not be saved.
pub open spec fn save_failure_text(error: StoreError) -> Seq<char> {
    match error {
        StoreError::UniqueViolation => "Content with this name already exists."@,
        StoreError::ForeignKeyViolation => "The page you're adding to does not appear to exist."@,
        _ => "Something happened when saving your content"@,
    }
}

/// What the visitor is told when a block of content could not be saved.
pub fn save_failure(error: StoreError) -> (notice: Notice)
    ensures
        notice@ == NoticeText::Error(save_failure_text(error)),
{
    match error {
        StoreError::UniqueViolation => Notice::Error("Content with this name already exists."),
        StoreError::ForeignKeyViolation => Notice::Error(
            "The page you're adding to does not appear to exist.",
        ),
        _ => Notice::Error("Something happened when saving your content"),
    }
}

/// What the visitor is told after creating a block of content.
pub fn create_content_notice(outcome: &Result<Content, StoreError>) -> (notice: Notice)
    ensures
        notice@ == match *outcome {
            Ok(_) => NoticeText::Success(
                "Created the content, you can add more content below, or go back to the page."@,
            ),
            Err(error) => NoticeText::Error(save_failure_text(error)),
        },
{
    match outcome {
        Ok(_) => Notice::Success(
            "Created the content, you can add more content below, or go back to the page.",
        ),
        Err(error) => save_failure(*error),
    }
}

/// What the visitor is told after changing a block of content.
pub fn update_content_notice(outcome: &Result<Content, StoreError>) -> (notice: Notice)
    ensures
        notice@ == match *outcome {
            Ok(_) => NoticeText::Success("Content updated successfully."@),
            Err(error) => NoticeText::Error(save_failure_text(error)),
        },
{
    match outcome {
        Ok(_) => Notice::Success("Content updated successfully."),
        Err(error) => save_failure(*error),
    }
}

/// The status of the answer to a deletion from the editor: an empty page
/// replaces the block that was deleted.
pub fn delete_content_status(outcome: &Result<(), StoreError>) -> (status: u16)
    ensures
        status == match *outcome {
            Ok(_) => OK,
            Err(StoreError::RowNotFound) => NOT_FOUND,
            Err(_) => INTERNAL_SERVER_ERROR,
        },
{
    match outcome {
        Ok(_) => OK,
        Err(StoreError::RowNotFound) => NOT_FOUND,
        Err(_) => INTERNAL_SERVER_ERROR,
    }
}

} // verus!
