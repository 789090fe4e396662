//! What is done to a request between a handler and the store.

pub mod content;
