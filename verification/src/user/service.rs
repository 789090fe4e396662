//! Signing up: what is done to a request before the store sees it.

use crate::text::has_prefix;
use crate::user::auth::{hash_password, password_matches, AuthError};
use crate::user::CreateUserRequest;
use vstd::prelude::*;

verus! {

/// Puts what hashing yielded in the place of the password of `request`: the
/// hash, where there is one. Where there is none the request is left as it
/// was, and the failure is handed on.
pub fn store_hash(request: &mut CreateUserRequest, hashed: Result<String, AuthError>) -> (r: Result<
    (),
    AuthError,
>)
    ensures
        final(request).email == old(request).email,
        final(request).given_name == old(request).given_name,
        final(request).family_name == old(request).family_name,
        match hashed {
            Ok(hash) => r is Ok && final(request).password == hash,
            Err(e) => r == Err::<(), AuthError>(e) && final(request).password == old(
                request,
            ).password,
        },
{
    match hashed {
        Ok(hash) => {
            request.password = hash;
            Ok(())
        },
        Err(e) => Err(e),
    }
}

/// Replaces the plaintext password of `request` by a fresh hash of it, so
/// that the store never sees the plaintext: what stands there afterwards is a
/// bcrypt hash at the fixed cost that the plaintext recovers. Where no hash
/// can be made the request is left as it was and must not be stored.
pub fn prepare_registration(request: &mut CreateUserRequest) -> (r: Result<(), AuthError>)
    ensures
        final(request).email == old(request).email,
        final(request).given_name == old(request).given_name,
        final(request).family_name == old(request).family_name,
        r is Ok ==> password_matches(old(request).password@, final(request).password@),
        r is Ok ==> final(request).password@.len() == 60 && has_prefix(
            final(request).password@,
            "$2b$12$"@,
        ),
        r matches Err(e) ==> e == AuthError::ConfigurationFault && final(request).password == old(
            request,
        ).password,
{
    let hashed = hash_password(request.password.as_str());
    store_hash(request, hashed)
}

} // verus!
