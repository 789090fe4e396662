//! The records of the content store: apps own pages, pages own named blocks
//! of content.

pub mod app;
pub mod content;
pub mod page;
