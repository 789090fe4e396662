//! Credentials and session tokens.

use crate::decimal::{decimal, digit_char, format_i64, lemma_i64_round_trip, parsed_i64};
use crate::text::has_prefix;
use jsonwebtoken::{Algorithm, DecodingKey, EncodingKey, Header, Validation};
use serde_json::Value;
use vstd::prelude::*;

verus! {

/// The failures of authentication, by kind. A wrong password is none of
/// them: signing in then yields no token, as it does for an unknown address.
#[derive(Clone, Copy, Debug, PartialEq, Eq, Structural)]
pub enum AuthError {
    /// The deployment is at fault: no signing secret, or hashing or signing
    /// is not possible.
    ConfigurationFault,
    /// The token is malformed, tampered with or expired; the three are not
    /// told apart.
    TokenInvalid,
    /// The token's subject is no identifier, or no user has it.
    IdentityUnresolvable,
}

/// `bcrypt::BcryptError`: why the hasher failed. It is passed on unread.
#[verifier::external_type_specification]
#[verifier::external_body]
pub struct ExBcryptError(bcrypt::BcryptError);

/// What `bcrypt::verify` makes of a password and a stored hash: `Some(true)`
/// where the password recovers the hash, `Some(false)` where it does not,
/// `None` where the stored text is no bcrypt hash.
pub uninterp spec fn bcrypt_verdict(password: Seq<char>, hash: Seq<char>) -> Option<bool>;

/// `password` recovers `hash`.
pub open spec fn password_matches(password: Seq<char>, hash: Seq<char>) -> bool {
    bcrypt_verdict(password, hash) == Some(true)
}

/// The work factor of every hash that this crate makes.
pub const HASH_COST: u32 = 12;

/// How a hash made at `cost` begins: the version `2b`, then the cost in two
/// digits.
pub open spec fn hash_prefix(cost: u32) -> Seq<char> {
    "$2b$"@ + seq![digit_char(cost as int / 10), digit_char(cost as int % 10)] + "$"@
}

/// `bcrypt::hash`: a fresh salted hash of `password` at the given cost.
///
/// Trusted: a hash that comes back is one that `bcrypt::verify` accepts for
/// the same password; it is 60 characters long and begins with the version
/// and the cost. Nothing is said of when one comes back, nor of which.
#[verifier::external_body]
fn bcrypt_hash(password: &str, cost: u32) -> (r: Result<String, bcrypt::BcryptError>)
    ensures
        r matches Ok(h) ==> bcrypt_verdict(password@, h@) == Some(true),
        r matches Ok(h) ==> h@.len() == 60 && has_prefix(h@, hash_prefix(cost)),
{
    bcrypt::hash(password, cost)
}

/// `bcrypt::verify`: recomputes the hash of `password` with the salt and cost
/// found in `hash` and compares.
///
/// Trusted: the outcome depends on the two texts alone.
#[verifier::external_body]
fn bcrypt_verify(password: &str, hash: &str) -> (r: Result<bool, bcrypt::BcryptError>)
    ensures
        r matches Ok(b) ==> bcrypt_verdict(password@, hash@) == Some(b),
        r is Err ==> bcrypt_verdict(password@, hash@) is None,
{
    bcrypt::verify(password, hash)
}

/// What verifying yields for each outcome of the comparison: a match where
/// the comparison was made and came out equal, a mismatch otherwise. A stored
/// text that could not be read as a hash is a mismatch, not a failure.
pub fn matched(outcome: Result<bool, bcrypt::BcryptError>) -> (ok: bool)
    ensures
        ok == (outcome matches Ok(true)),
{
    match outcome {
        Ok(equal) => equal,
        Err(_) => false,
    }
}

/// What hashing yields for each outcome of the hasher: the hash, or a
/// configuration fault.
pub fn hashed_or_fault(outcome: Result<String, bcrypt::BcryptError>) -> (r: Result<
    String,
    AuthError,
>)
    ensures
        match outcome {
            Ok(h) => r == Ok::<String, AuthError>(h),
            Err(_) => r == Err::<String, AuthError>(AuthError::ConfigurationFault),
        },
{
    match outcome {
        Ok(h) => Ok(h),
        Err(_) => Err(AuthError::ConfigurationFault),
    }
}

/// Hashes a plaintext password for storage, with a fresh salt and at the
/// fixed cost.
///
/// Every hash that is returned is one that `verify_password` accepts for the
/// same password. A hasher that cannot work is a configuration fault, and no
/// hash is returned then.
pub fn hash_password(password: &str) -> (r: Result<String, AuthError>)
    ensures
        r matches Ok(h) ==> password_matches(password@, h@),
        r matches Ok(h) ==> h@.len() == 60 && has_prefix(h@, "$2b$12$"@),
        r matches Err(e) ==> e == AuthError::ConfigurationFault,
{
    proof {
        reveal_strlit("$2b$");
        reveal_strlit("$");
        reveal_strlit("$2b$12$");
        assert(hash_prefix(HASH_COST) =~= "$2b$12$"@);
    }
    hashed_or_fault(bcrypt_hash(password, HASH_COST))
}

/// The value of one claim of a token's payload, as far as this crate reads
/// it.
#[derive(Debug, Clone)]
pub enum ClaimValue {
    /// A JSON string.
    Text(String),
    /// A JSON number that is a non-negative integer below 2^64.
    Number(u64),
    /// Anything else: null, a boolean, another number, an array, an object.
    Other,
}

/// One claim of a token's payload.
#[derive(Debug, Clone)]
pub struct Claim {
    pub name: String,
    pub value: ClaimValue,
}

/// The mathematical value of a `ClaimValue`.
pub enum ClaimData {
    Text(Seq<char>),
    Number(u64),
    Other,
}

impl View for ClaimValue {
    type V = ClaimData;

    open spec fn view(&self) -> ClaimData {
        match self {
            ClaimValue::Text(s) => ClaimData::Text(s@),
            ClaimValue::Number(n) => ClaimData::Number(*n),
            ClaimValue::Other => ClaimData::Other,
        }
    }
}

impl View for Claim {
    type V = (Seq<char>, ClaimData);

    open spec fn view(&self) -> (Seq<char>, ClaimData) {
        (self.name@, self.value@)
    }
}

/// The payload that a list of claims stands for.
pub open spec fn payload_of(claims: Seq<Claim>) -> Seq<(Seq<char>, ClaimData)> {
    claims.map_values(|c: Claim| c@)
}

/// `jsonwebtoken::errors::Error`: why a token was not made or not accepted.
/// It is passed on unread.
#[verifier::external_type_specification]
#[verifier::external_body]
pub struct ExTokenError(jsonwebtoken::errors::Error);

/// The compact token that `jsonwebtoken::encode` makes of a payload under
/// HMAC-SHA256 with `secret`, or `None` where it makes none.
pub uninterp spec fn hs256_token(
    payload: Seq<(Seq<char>, ClaimData)>,
    secret: Seq<char>,
) -> Option<Seq<char>>;

/// The payload that `jsonwebtoken::decode` finds in `token` under
/// HMAC-SHA256 with `secret`, its expiry left unchecked, or `None` where it
/// rejects the token.
pub uninterp spec fn hs256_payload(token: Seq<char>, secret: Seq<char>) -> Option<
    Seq<(Seq<char>, ClaimData)>,
>;

/// `jsonwebtoken::encode` with an HS256 header and `secret` as the key. The
/// payload is the JSON object with one member for each claim, in the order
/// given.
///
/// Trusted: the token depends on the claims and the secret alone.
#[verifier::external_body]
fn encode_hs256(claims: &Vec<Claim>, secret: &str) -> (r: Result<String, jsonwebtoken::errors::Error>)
    ensures
        r matches Ok(t) ==> hs256_token(payload_of(claims@), secret@) == Some(t@),
        r is Err ==> hs256_token(payload_of(claims@), secret@) is None,
{
    let payload: serde_json::Map<String, Value> = claims.iter().map(
        |c| (c.name.clone(), match &c.value {
            ClaimValue::Text(s) => Value::from(s.as_str()),
            ClaimValue::Number(n) => Value::from(*n),
            ClaimValue::Other => Value::Null,
        }),
    ).collect();
    jsonwebtoken::encode(&Header::new(Algorithm::HS256), &payload, &EncodingKey::from_secret(secret.as_bytes()))
}

/// `jsonwebtoken::decode` for HS256 with `secret` as the key: checks the
/// token's shape, header and signature and reads its payload, a JSON object,
/// member by member.
///
/// The call is made with expiry validation switched off, so that its outcome
/// depends on the token and the secret alone; `exp` must still be present.
/// The caller compares `exp` with its own reading of the clock.
///
/// Trusted: the outcome depends on the token and the secret alone.
#[verifier::external_body]
fn decode_hs256(token: &str, secret: &str) -> (r: Result<Vec<Claim>, jsonwebtoken::errors::Error>)
    ensures
        r matches Ok(claims) ==> hs256_payload(token@, secret@) == Some(payload_of(claims@)),
        r is Err ==> hs256_payload(token@, secret@) is None,
{
    let mut validation = Validation::new(Algorithm::HS256);
    validation.validate_exp = false;
    let key = DecodingKey::from_secret(secret.as_bytes());
    let data = jsonwebtoken::decode::<serde_json::Map<String, Value>>(token, &key, &validation)?;
    Ok(data.claims.into_iter().map(|(name, value)| Claim { name, value: match value {
        Value::String(s) => ClaimValue::Text(s),
        Value::Number(n) => n.as_u64().map_or(ClaimValue::Other, ClaimValue::Number),
        Value::Null | Value::Bool(_) | Value::Array(_) | Value::Object(_) => ClaimValue::Other,
    } }).collect())
}

/// `chrono::Utc::now().timestamp()`: the clock's reading, in seconds since
/// the Unix epoch. Nothing is known of it.
#[verifier::external_body]
pub(crate) fn unix_now() -> i64 {
    chrono::Utc::now().timestamp()
}

/// The claims of a session token.
#[derive(Debug)]
pub struct UserClaims {
    /// The user's identifier, in decimal.
    pub sub: String,
    pub email: String,
    /// The instant from which the token is no longer valid, in seconds since
    /// the Unix epoch.
    pub exp: usize,
}

/// The mathematical value of `UserClaims`.
pub struct ClaimSet {
    pub sub: Seq<char>,
    pub email: Seq<char>,
    pub exp: usize,
}

impl View for UserClaims {
    type V = ClaimSet;

    open spec fn view(&self) -> ClaimSet {
        ClaimSet { sub: self.sub@, email: self.email@, exp: self.exp }
    }
}

/// How long a session token is valid, in seconds: one day.
pub const SESSION_SECONDS: i64 = 86400;

/// The expiry of a token issued at `now`, where it is an instant that a token
/// can carry.
pub open spec fn expiry(now: int) -> Option<usize> {
    if 0 <= now + SESSION_SECONDS <= usize::MAX {
        Some((now + SESSION_SECONDS) as usize)
    } else {
        None
    }
}

/// The payload of a session token: `sub`, `email` and `exp`, in this order.
pub open spec fn session_payload(claims: ClaimSet) -> Seq<(Seq<char>, ClaimData)> {
    seq![
        ("sub"@, ClaimData::Text(claims.sub)),
        ("email"@, ClaimData::Text(claims.email)),
        ("exp"@, ClaimData::Number(claims.exp as u64)),
    ]
}

/// The claims of a session token for the user `id` with the address `email`
/// that expires at `exp`.
pub open spec fn session_claims(id: i64, email: Seq<char>, exp: usize) -> ClaimSet {
    ClaimSet { sub: decimal(id as int), email, exp }
}

/// The value of the first claim called `name`, if there is one.
pub open spec fn claim_named(payload: Seq<(Seq<char>, ClaimData)>, name: Seq<char>) -> Option<
    ClaimData,
>
    decreases payload.len(),
{
    if payload.len() == 0 {
        None
    } else if payload[0].0 == name {
        Some(payload[0].1)
    } else {
        claim_named(payload.skip(1), name)
    }
}

/// The session claims that a payload holds: `sub` and `email` as strings and
/// `exp` as a number that fits `usize`. Other claims are passed over.
pub open spec fn claims_in(payload: Seq<(Seq<char>, ClaimData)>) -> Option<ClaimSet> {
    match (claim_named(payload, "sub"@), claim_named(payload, "email"@), claim_named(payload, "exp"@)) {
        (Some(ClaimData::Text(sub)), Some(ClaimData::Text(email)), Some(ClaimData::Number(exp))) => {
            if exp <= usize::MAX {
                Some(ClaimSet { sub, email, exp: exp as usize })
            } else {
                None
            }
        },
        _ => None,
    }
}

/// The claims that verification at the instant `now` yields for a decoded
/// payload: those that the payload holds, unless they have expired. A token
/// expires when `now` has passed `exp`.
pub open spec fn accepted_claims(decoded: Option<Seq<(Seq<char>, ClaimData)>>, now: int) -> Option<
    ClaimSet,
> {
    match decoded {
        None => None,
        Some(payload) => match claims_in(payload) {
            Some(claims) => if claims.exp >= now {
                Some(claims)
            } else {
                None
            },
            None => None,
        },
    }
}

/// What issuing at `now` yields: the signed token, or a configuration fault
/// where the expiry is no instant that a token can carry or nothing can be
/// signed.
pub open spec fn issued(id: i64, email: Seq<char>, secret: Seq<char>, now: int) -> Result<
    Seq<char>,
    AuthError,
> {
    match expiry(now) {
        None => Err(AuthError::ConfigurationFault),
        Some(exp) => match hs256_token(session_payload(session_claims(id, email, exp)), secret) {
            Some(token) => Ok(token),
            None => Err(AuthError::ConfigurationFault),
        },
    }
}

/// What the store holds of a user for signing in.
#[derive(Debug, Clone)]
pub struct Account {
    pub id: i64,
    pub email: String,
    pub password_hash: String,
}

/// What signing in yields: no token where no account was found or the
/// password does not recover its hash, else what issuing yields.
pub open spec fn login_result(
    account: Option<Account>,
    password: Seq<char>,
    secret: Seq<char>,
    now: int,
) -> Result<Option<Seq<char>>, AuthError> {
    match account {
        Some(found) => if password_matches(password, found.password_hash@) {
            match issued(found.id, found.email@, secret, now) {
                Ok(token) => Ok(Some(token)),
                Err(e) => Err(e),
            }
        } else {
            Ok(None)
        },
        None => Ok(None),
    }
}

/// The account that a look-up handed over, if it handed one over.
pub open spec fn account_found(account: Option<&Account>) -> Option<Account> {
    match account {
        Some(found) => Some(*found),
        None => None,
    }
}

/// `r` is the outcome `expected` of signing in: the same token, the same
/// absence of one, or the same failure.
pub open spec fn is_login_outcome(
    r: Result<Option<String>, AuthError>,
    expected: Result<Option<Seq<char>>, AuthError>,
) -> bool {
    match expected {
        Ok(Some(token)) => r matches Ok(Some(t)) && t@ == token,
        Ok(None) => r matches Ok(None),
        Err(e) => r matches Err(f) && f == e,
    }
}

/// What issuing yields for each outcome of the signer: the token, or a
/// configuration fault.
pub fn signed_or_fault(outcome: Result<String, jsonwebtoken::errors::Error>) -> (r: Result<
    String,
    AuthError,
>)
    ensures
        match outcome {
            Ok(token) => r == Ok::<String, AuthError>(token),
            Err(_) => r == Err::<String, AuthError>(AuthError::ConfigurationFault),
        },
{
    match outcome {
        Ok(token) => Ok(token),
        Err(_) => Err(AuthError::ConfigurationFault),
    }
}

/// `r` is the outcome `expected` of verifying: the same claims, or
/// `TokenInvalid` where there are none.
pub open spec fn is_verified_outcome(r: Result<UserClaims, AuthError>, expected: Option<ClaimSet>) -> bool {
    match expected {
        Some(set) => r matches Ok(claims) && claims@ == set,
        None => r matches Err(e) && e == AuthError::TokenInvalid,
    }
}

/// `r` is the outcome `expected` of issuing: the same token, or the same
/// failure.
pub open spec fn is_issued_outcome(
    r: Result<String, AuthError>,
    expected: Result<Seq<char>, AuthError>,
) -> bool {
    match expected {
        Ok(token) => r matches Ok(t) && t@ == token,
        Err(e) => r matches Err(f) && f == e,
    }
}

/// What verifying `token` under `secret` at the instant `now` yields.
pub open spec fn verified(token: Seq<char>, secret: Seq<char>, now: i64) -> Option<ClaimSet> {
    accepted_claims(hs256_payload(token, secret), now as int)
}

/// What issuing at the instant `now` yields, `now` being a reading of the
/// clock.
pub open spec fn issued_at(id: i64, email: Seq<char>, secret: Seq<char>, now: i64) -> Result<
    Seq<char>,
    AuthError,
> {
    issued(id, email, secret, now as int)
}

/// What signing in at the instant `now` yields, `now` being a reading of the
/// clock.
pub open spec fn login_result_at(
    account: Option<Account>,
    password: Seq<char>,
    secret: Seq<char>,
    now: i64,
) -> Result<Option<Seq<char>>, AuthError> {
    login_result(account, password, secret, now as int)
}

/// The position of the first claim called `name`.
fn position_of(claims: &Vec<Claim>, name: &str) -> (r: Option<usize>)
    ensures
        match r {
            Some(i) => i < claims.len() && claim_named(payload_of(claims@), name@) == Some(
                claims@[i as int].value@,
            ),
            None => claim_named(payload_of(claims@), name@) is None,
        },
{
    let ghost payload = payload_of(claims@);
    let wanted = name.to_owned();
    let mut i: usize = 0;
    assert(payload.skip(0) =~= payload);
    while i < claims.len()
        invariant
            0 <= i <= claims.len(),
            wanted@ == name@,
            payload == payload_of(claims@),
            claim_named(payload, name@) == claim_named(payload.skip(i as int), name@),
        decreases claims.len() - i,
    {
        let ghost rest = payload.skip(i as int);
        assert(rest[0] == claims@[i as int]@);
        if claims[i].name == wanted {
            return Some(i);
        }
        assert(rest.skip(1) =~= payload.skip(i + 1));
        i += 1;
    }
    None
}

/// Reads the session claims out of a decoded payload.
pub fn read_claims(claims: &Vec<Claim>) -> (r: Option<UserClaims>)
    ensures
        match claims_in(payload_of(claims@)) {
            Some(set) => r matches Some(found) && found@ == set,
            None => r is None,
        },
{
    let sub = match position_of(claims, "sub") {
        Some(i) => match &claims[i].value {
            ClaimValue::Text(s) => s.clone(),
            _ => { return None; },
        },
        None => { return None; },
    };
    let email = match position_of(claims, "email") {
        Some(i) => match &claims[i].value {
            ClaimValue::Text(s) => s.clone(),
            _ => { return None; },
        },
        None => { return None; },
    };
    let exp: u64 = match position_of(claims, "exp") {
        Some(i) => match &claims[i].value {
            ClaimValue::Number(n) => *n,
            _ => { return None; },
        },
        None => { return None; },
    };
    if exp > usize::MAX as u64 {
        return None;
    }
    Some(UserClaims { sub, email, exp: exp as usize })
}

/// Verification of a token that has been decoded, at the instant `now`: the
/// session claims of the payload, unless there are none or they have expired.
/// Every failure is `TokenInvalid`.
pub fn check_decoded(decoded: Option<Vec<Claim>>, now: i64) -> (r: Result<UserClaims, AuthError>)
    ensures
        match accepted_claims(
            match decoded {
                Some(claims) => Some(payload_of(claims@)),
                None => None,
            },
            now as int,
        ) {
            Some(set) => r matches Ok(claims) && claims@ == set,
            None => r matches Err(e) && e == AuthError::TokenInvalid,
        },
{
    match decoded {
        Some(claims) => match read_claims(&claims) {
            Some(found) => {
                if now >= 0 && (found.exp as u64) < (now as u64) {
                    Err(AuthError::TokenInvalid)
                } else {
                    Ok(found)
                }
            },
            None => Err(AuthError::TokenInvalid),
        },
        None => Err(AuthError::TokenInvalid),
    }
}

/// The payload of a session token holds the claims it was made of, and the
/// subject reads back as the user's identifier. What is shown is this crate's
/// part of issuing and verifying: that the decoder finds the payload that the
/// encoder was given is not.
pub proof fn lemma_session_claims_read_back(id: i64, email: Seq<char>, exp: usize)
    ensures
        claims_in(session_payload(session_claims(id, email, exp))) == Some(
            session_claims(id, email, exp),
        ),
        session_claims(id, email, exp).sub == decimal(id as int),
        session_claims(id, email, exp).email == email,
        parsed_i64(session_claims(id, email, exp).sub) == Some(id),
{
    let claims = session_claims(id, email, exp);
    let payload = session_payload(claims);
    reveal_strlit("sub");
    reveal_strlit("email");
    reveal_strlit("exp");
    assert("sub"@ != "email"@) by {
        assert("sub"@.len() != "email"@.len());
    }
    assert("sub"@ != "exp"@) by {
        assert("sub"@[0] != "exp"@[0]);
    }
    assert("email"@ != "exp"@) by {
        assert("email"@.len() != "exp"@.len());
    }
    let second = payload.skip(1);
    let third = second.skip(1);
    assert(second[0] == payload[1]);
    assert(third[0] == payload[2]);
    assert(claim_named(payload, "sub"@) == Some(ClaimData::Text(claims.sub)));
    assert(claim_named(second, "email"@) == Some(ClaimData::Text(claims.email)));
    assert(claim_named(payload, "email"@) == claim_named(second, "email"@));
    assert(claim_named(third, "exp"@) == Some(ClaimData::Number(exp as u64)));
    assert(claim_named(second, "exp"@) == claim_named(third, "exp"@));
    assert(claim_named(payload, "exp"@) == claim_named(second, "exp"@));
    lemma_i64_round_trip(id);
}

/// The claims of a token issued at `now` are accepted at every instant up to
/// its expiry, one day later, and at none after it.
pub proof fn lemma_session_lasts_one_day(id: i64, email: Seq<char>, now: int, later: int)
    requires
        expiry(now) is Some,
    ensures
        ({
            let claims = session_claims(id, email, expiry(now).unwrap());
            accepted_claims(Some(session_payload(claims)), later) == if later <= now
                + SESSION_SECONDS {
                Some(claims)
            } else {
                None
            }
        }),
{
    lemma_session_claims_read_back(id, email, expiry(now).unwrap());
}

/// A token that was issued verifies until it expires, and gives the user's
/// identifier and address back, wherever the decoder reads from the token the
/// payload that the encoder was given. That it does is the outside coder's
/// and is not shown here: it is what this law asks for.
pub proof fn lemma_issued_token_verifies(
    id: i64,
    email: Seq<char>,
    secret: Seq<char>,
    now: int,
    later: int,
    token: Seq<char>,
)
    requires
        issued(id, email, secret, now) == Ok::<Seq<char>, AuthError>(token),
        hs256_payload(token, secret) == Some(
            session_payload(session_claims(id, email, expiry(now).unwrap())),
        ),
        later <= now + SESSION_SECONDS,
    ensures
        accepted_claims(hs256_payload(token, secret), later) matches Some(claims) && {
            &&& claims.sub == decimal(id as int)
            &&& parsed_i64(claims.sub) == Some(id)
            &&& claims.email == email
            &&& claims.exp == now + SESSION_SECONDS
        },
{
    lemma_session_lasts_one_day(id, email, now, later);
    lemma_session_claims_read_back(id, email, expiry(now).unwrap());
}

/// Claims whose `exp` is before `now` are never accepted, whatever the
/// decoder made of the token's signature.
pub proof fn lemma_expired_is_rejected(decoded: Option<Seq<(Seq<char>, ClaimData)>>, now: int)
    ensures
        accepted_claims(decoded, now) matches Some(claims) ==> claims.exp >= now,
        decoded matches Some(payload) && claims_in(payload) matches Some(claims) && claims.exp < now
            ==> accepted_claims(decoded, now) is None,
{
}

/// A wrong password and an unknown address are not told apart: both sign
/// nobody in, and neither is an error.
pub proof fn lemma_mismatch_is_uniform(
    account: Account,
    password: Seq<char>,
    secret: Seq<char>,
    now: int,
)
    requires
        !password_matches(password, account.password_hash@),
    ensures
        login_result(Some(account), password, secret, now) == login_result(
            None,
            password,
            secret,
            now,
        ),
        login_result(None, password, secret, now) == Ok::<Option<Seq<char>>, AuthError>(None),
{
}

/// Nobody is signed in without an account whose hash the password recovers.
pub proof fn lemma_token_needs_matching_password(
    account: Option<Account>,
    password: Seq<char>,
    secret: Seq<char>,
    now: int,
)
    ensures
        login_result(account, password, secret, now) matches Ok(Some(token)) ==> {
            &&& account matches Some(found)
            &&& password_matches(password, found.password_hash@)
            &&& issued(found.id, found.email@, secret, now) == Ok::<Seq<char>, AuthError>(token)
        },
{
}

/// Signs and verifies session tokens with one secret, and signs users in.
pub struct AuthService {
    secret: String,
}

impl AuthService {
    /// The signing secret.
    pub closed spec fn secret(&self) -> Seq<char> {
        self.secret@
    }

    /// A service that signs and verifies with `secret`.
    pub fn new(secret: String) -> (service: Self)
        ensures
            service.secret() == secret@,
    {
        AuthService { secret }
    }

    /// A service for the secret that the configuration holds. A
    /// configuration without one is a fault.
    pub fn configured(secret: Option<String>) -> (r: Result<Self, AuthError>)
        ensures
            match secret {
                Some(s) => r matches Ok(service) && service.secret() == s@,
                None => r matches Err(e) && e == AuthError::ConfigurationFault,
            },
    {
        match secret {
            Some(s) => Ok(AuthService { secret: s }),
            None => Err(AuthError::ConfigurationFault),
        }
    }

    /// Tells whether `password` recovers `hashed`. A stored text that is no
    /// hash at all is a plain mismatch.
    pub fn verify_password(password: &str, hashed: &str) -> (ok: bool)
        ensures
            ok == password_matches(password@, hashed@),
    {
        matched(bcrypt_verify(password, hashed))
    }

    /// Issues at the instant `now` a token for the user `id` with the address
    /// `email`: `sub` is the identifier in decimal, `exp` is one day after
    /// `now`.
    pub fn issue_token_at(&self, id: i64, email: &str, now: i64) -> (r: Result<String, AuthError>)
        ensures
            match issued(id, email@, self.secret(), now as int) {
                Ok(token) => r matches Ok(t) && t@ == token,
                Err(e) => r matches Err(f) && f == e,
            },
    {
        let exp: i128 = now as i128 + SESSION_SECONDS as i128;
        if exp < 0 || exp > usize::MAX as i128 {
            return Err(AuthError::ConfigurationFault);
        }
        let mut claims: Vec<Claim> = Vec::new();
        claims.push(Claim { name: "sub".to_owned(), value: ClaimValue::Text(format_i64(id)) });
        claims.push(Claim { name: "email".to_owned(), value: ClaimValue::Text(email.to_owned()) });
        claims.push(Claim { name: "exp".to_owned(), value: ClaimValue::Number(exp as u64) });
        proof {
            assert(payload_of(claims@) =~= session_payload(
                session_claims(id, email@, exp as usize),
            ));
        }
        signed_or_fault(encode_hs256(&claims, self.secret.as_str()))
    }

    /// Issues a token for the user `id` with the address `email` at the
    /// clock's reading: the outcome is what `issue_token_at` yields at one
    /// instant, the one that the clock gave.
    pub fn issue_token(&self, id: i64, email: &str) -> (r: Result<String, AuthError>)
        ensures
            exists|now: i64|
                is_issued_outcome(r, #[trigger] issued_at(id, email@, self.secret(), now)),
            r matches Err(e) ==> e == AuthError::ConfigurationFault,
    {
        let now = unix_now();
        let r = self.issue_token_at(id, email, now);
        assert(is_issued_outcome(r, issued_at(id, email@, self.secret(), now)));
        r
    }

    /// Verifies `token` at the instant `now`: its signature under the
    /// service's secret, its shape, and that it has not expired. Every
    /// failure is `TokenInvalid`.
    pub fn verify_token_at(&self, token: &str, now: i64) -> (r: Result<UserClaims, AuthError>)
        ensures
            match accepted_claims(hs256_payload(token@, self.secret()), now as int) {
                Some(set) => r matches Ok(claims) && claims@ == set,
                None => r matches Err(e) && e == AuthError::TokenInvalid,
            },
    {
        match decode_hs256(token, self.secret.as_str()) {
            Ok(claims) => check_decoded(Some(claims), now),
            Err(_) => check_decoded(None, now),
        }
    }

    /// Verifies `token` at the clock's reading: the outcome is what
    /// `verify_token_at` yields at one instant, the one that the clock gave.
    pub fn verify_token(&self, token: &str) -> (r: Result<UserClaims, AuthError>)
        ensures
            exists|now: i64|
                is_verified_outcome(r, #[trigger] verified(token@, self.secret(), now)),
            r matches Err(e) ==> e == AuthError::TokenInvalid,
            r matches Ok(claims) ==> claims_in(hs256_payload(token@, self.secret()).unwrap())
                == Some(claims@),
            r matches Ok(claims) ==> hs256_payload(token@, self.secret()) is Some,
    {
        let now = unix_now();
        let r = self.verify_token_at(token, now);
        assert(is_verified_outcome(r, verified(token@, self.secret(), now)));
        r
    }

    /// Signs in at the instant `now`, given what the store holds for the
    /// address that was submitted: a token where an account was found and the
    /// password recovers its hash, else none.
    pub fn login_at(&self, account: Option<&Account>, password: &str, now: i64) -> (r: Result<
        Option<String>,
        AuthError,
    >)
        ensures
            is_login_outcome(
                r,
                login_result(account_found(account), password@, self.secret(), now as int),
            ),
    {
        match account {
            Some(found) => {
                if Self::verify_password(password, found.password_hash.as_str()) {
                    match self.issue_token_at(found.id, found.email.as_str(), now) {
                        Ok(token) => Ok(Some(token)),
                        Err(e) => Err(e),
                    }
                } else {
                    Ok(None)
                }
            },
            None => Ok(None),
        }
    }

    /// Signs in at the clock's reading: the outcome is what `login_at` yields
    /// at one instant, the one that the clock gave. So nobody is signed in
    /// without an account whose hash the password recovers, and with one the
    /// outcome is a token issued at that instant, or the fault that kept it
    /// from being issued.
    pub fn login(&self, account: Option<&Account>, password: &str) -> (r: Result<
        Option<String>,
        AuthError,
    >)
        ensures
            exists|now: i64|
                is_login_outcome(
                    r,
                    #[trigger] login_result_at(
                        account_found(account),
                        password@,
                        self.secret(),
                        now,
                    ),
                ),
            r matches Err(e) ==> e == AuthError::ConfigurationFault,
            r matches Ok(Some(_)) ==> account matches Some(a) && password_matches(
                password@,
                a.password_hash@,
            ),
            (account matches Some(a) ==> !password_matches(password@, a.password_hash@)) ==> r
                matches Ok(None),
            (account matches Some(a) && password_matches(password@, a.password_hash@)) ==> !(r
                matches Ok(None)),
    {
        let now = unix_now();
        let r = self.login_at(account, password, now);
        assert(is_login_outcome(
            r,
            login_result_at(account_found(account), password@, self.secret(), now),
        ));
        r
    }
}

} // verus!
