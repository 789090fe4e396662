//! User records and what is done with them: credentials, session tokens,
//! sign-up and sign-in.

use vstd::prelude::*;

pub mod auth;
pub mod repository;
pub mod routes;
pub mod service;

verus! {

/// A user as the store holds it, without the password hash.
#[derive(Debug, Clone)]
pub struct User {
    pub id: i64,
    pub email: String,
    pub given_name: String,
    pub family_name: String,
    pub avatar_url: String,
    pub role: i64,
    pub created_at: String,
    pub updated_at: String,
}

/// What a visitor submits to sign up. `password` is the plaintext until the
/// request has been prepared for the store, and the hash from then on.
#[derive(Debug, Clone)]
pub struct CreateUserRequest {
    pub email: String,
    pub password: String,
    pub given_name: String,
    pub family_name: String,
}

} // verus!
