//! What the handlers answer, given what the store made of a request.

use crate::store::StoreError;
use vstd::prelude::*;

pub mod apps;
pub mod content;
pub mod homepage;
pub mod pages;

verus! {

pub const OK: u16 = 200;

pub const CREATED: u16 = 201;

pub const NO_CONTENT: u16 = 204;

pub const NOT_FOUND: u16 = 404;

pub const INTERNAL_SERVER_ERROR: u16 = 500;

/// A message for the visitor, shown as a success or as an error.
#[derive(Clone, Copy, Debug)]
pub enum Notice {
    Success(&'static str),
    Error(&'static str),
}

/// The mathematical value of a `Notice`.
pub enum NoticeText {
    Success(Seq<char>),
    Error(Seq<char>),
}

impl View for Notice {
    type V = NoticeText;

    open spec fn view(&self) -> NoticeText {
        match self {
            Notice::Success(text) => NoticeText::Success(text@),
            Notice::Error(text) => NoticeText::Error(text@),
        }
    }
}

/// The status of a read: found, not found, or failed.
pub open spec fn read_status_of<T>(outcome: Result<T, StoreError>) -> u16 {
    match outcome {
        Ok(_) => OK,
        Err(StoreError::RowNotFound) => NOT_FOUND,
        Err(_) => INTERNAL_SERVER_ERROR,
    }
}

/// The status of a read.
pub fn read_status<T>(outcome: &Result<T, StoreError>) -> (status: u16)
    ensures
        status == read_status_of(*outcome),
{
    match outcome {
        Ok(_) => OK,
        Err(StoreError::RowNotFound) => NOT_FOUND,
        Err(_) => INTERNAL_SERVER_ERROR,
    }
}

/// The status of a creation: created, or failed.
pub fn create_status<T>(outcome: &Result<T, StoreError>) -> (status: u16)
    ensures
        status == if outcome is Ok {
            CREATED
        } else {
            INTERNAL_SERVER_ERROR
        },
{
    match outcome {
        Ok(_) => CREATED,
        Err(_) => INTERNAL_SERVER_ERROR,
    }
}

/// The status of a deletion: nothing left to show, or failed.
pub fn delete_status(outcome: &Result<(), StoreError>) -> (status: u16)
    ensures
        status == if outcome is Ok {
            NO_CONTENT
        } else {
            INTERNAL_SERVER_ERROR
        },
{
    match outcome {
        Ok(_) => NO_CONTENT,
        Err(_) => INTERNAL_SERVER_ERROR,
    }
}

} // verus!
