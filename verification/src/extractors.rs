//! Who is making a request.

pub mod current_user;
