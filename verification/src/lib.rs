//! A content-management backend's rules, verified: who is making a request,
//! and what is answered.
//!
//! The heart of the crate is request identity. `user::auth` hashes and
//! verifies passwords and issues and verifies session tokens;
//! `extractors::current_user` finds the token in a request's cookies and
//! resolves it to a user, either as a must or as a may; `user::routes` hands
//! the token out as a cookie. `text` and `decimal` are what these are built
//! on.
//!
//! Around it stand the records of the content store (`models`) and what the
//! handlers, services and repositories decide about them (`routes`,
//! `services`, `repositories`, `naming`, `store`).
//!
//! Reading and writing the database, rendering templates and serving HTTP are
//! the caller's: functions here take what was read and return what is to be
//! written. Calls into other crates stand behind small functions whose
//! contracts are trusted, each marked as such where it is declared.

pub mod decimal;
pub mod extractors;
pub mod models;
pub mod naming;
pub mod repositories;
pub mod routes;
pub mod services;
pub mod store;
pub mod text;
pub mod user;
