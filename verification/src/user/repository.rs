//! What surrounds the statements that read and write users: the avatar a new
//! user is given, and the record of a user that was just inserted.

use crate::decimal::{decimal, push_digits};
use crate::user::{CreateUserRequest, User};
use vstd::prelude::*;
use vstd::string::StringExecFns;

verus! {

/// How many avatars there are to pick from. They are numbered from 1.
pub const CRITTERS: u8 = 11;

/// The role of a user who signed up.
pub const DEFAULT_ROLE: i64 = 1;

/// The avatar that a random byte picks.
pub open spec fn critter_of(byte: u8) -> int {
    byte % CRITTERS + 1
}

/// The address of the avatar with the given number.
pub open spec fn avatar_text(number: int) -> Seq<char> {
    "http://localhost:3000/assets/images/critter_"@ + decimal(number) + ".svg"@
}

/// `rand::random::<u8>()`: a byte from the thread's generator. Nothing is
/// known of it.
#[verifier::external_body]
fn random_byte() -> u8 {
    rand::random::<u8>()
}

/// `chrono::Utc::now().to_string()`: the clock's reading as text. Nothing is
/// known of it.
#[verifier::external_body]
fn utc_now_text() -> String {
    chrono::Utc::now().to_string()
}

/// The number of the avatar that `byte` picks, from 1 to `CRITTERS`.
pub fn critter_number(byte: u8) -> (number: u8)
    ensures
        number == critter_of(byte),
        1 <= number <= CRITTERS,
{
    byte % CRITTERS + 1
}

/// The address of the avatar that `byte` picks.
pub fn avatar_url(byte: u8) -> (url: String)
    ensures
        url@ == avatar_text(critter_of(byte)),
{
    let mut url = String::from_str("http://localhost:3000/assets/images/critter_");
    push_digits(&mut url, critter_number(byte) as u64);
    url.append(".svg");
    url
}

/// The address of an avatar picked at random.
pub fn pick_avatar() -> (url: String)
    ensures
        exists|number: int| 1 <= number <= CRITTERS && url@ == avatar_text(number),
{
    let byte = random_byte();
    let url = avatar_url(byte);
    assert(1 <= critter_of(byte) <= CRITTERS && url@ == avatar_text(critter_of(byte)));
    url
}

/// The record of a user that the store has just inserted under `id`, with the
/// given times of creation and update: what was requested, the avatar, and
/// the default role. The password stays in the store.
pub fn new_user(
    id: i64,
    request: &CreateUserRequest,
    avatar_url: String,
    created_at: String,
    updated_at: String,
) -> (user: User)
    ensures
        user.id == id,
        user.email@ == request.email@,
        user.given_name@ == request.given_name@,
        user.family_name@ == request.family_name@,
        user.avatar_url == avatar_url,
        user.role == DEFAULT_ROLE,
        user.created_at == created_at,
        user.updated_at == updated_at,
{
    User {
        id,
        email: request.email.clone(),
        given_name: request.given_name.clone(),
        family_name: request.family_name.clone(),
        avatar_url,
        role: DEFAULT_ROLE,
        created_at,
        updated_at,
    }
}

/// The record of a user that the store has just inserted under `id`, created
/// and updated at the clock's reading.
pub fn inserted_user(id: i64, request: &CreateUserRequest, avatar_url: String) -> (user: User)
    ensures
        user.id == id,
        user.email@ == request.email@,
        user.given_name@ == request.given_name@,
        user.family_name@ == request.family_name@,
        user.avatar_url == avatar_url,
        user.role == DEFAULT_ROLE,
{
    let created_at = utc_now_text();
    let updated_at = utc_now_text();
    new_user(id, request, avatar_url, created_at, updated_at)
}

} // verus!
