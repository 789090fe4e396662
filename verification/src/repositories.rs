//! What surrounds the statements that read and write apps, pages and content.

pub mod apps;
pub mod pages;
