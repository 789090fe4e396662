//! Request identity: from the `Cookie` header of a request to the user who
//! sent it.
//!
//! Resolution goes through five stages, and the first that fails settles the
//! outcome: a `Cookie` header, the authentication cookie in it, a token that
//! verifies, a subject that is an identifier, a user with that identifier.
//! The look-up of the user is the caller's: `Resolution::begin` does what
//! comes before it and `Resolution::conclude` what comes after.
//!
//! Two policies read the outcome. `CurrentUser` rejects the request unless a
//! user was resolved; `MaybeUser` lets it pass as anonymous.

use crate::decimal::{parse_i64, parsed_i64};
use crate::text::{
    chars_of, has_prefix, is_whitespace, lemma_trim_end_is_take, lemma_trim_start_is_skip,
    starts_with, string_of, trim, trim_bounds,
};
use crate::store::StoreError;
use crate::user::auth::{
    accepted_claims, expiry, hs256_payload, issued, lemma_issued_token_verifies, session_claims,
    session_payload, unix_now, AuthError, AuthService, SESSION_SECONDS,
};
use crate::user::User;
use vstd::prelude::*;

verus! {

/// The name of the cookie that carries the session token.
pub const AUTH_COOKIE: &'static str = "auth_token";

/// The status of every rejection: 401 Unauthorized.
pub const UNAUTHORIZED: u16 = 401;

/// The length of the first `;`-separated segment of `s`.
pub open spec fn segment_len(s: Seq<char>) -> int
    decreases s.len(),
{
    if s.len() == 0 || s[0] == ';' {
        0
    } else {
        1 + segment_len(s.skip(1))
    }
}

/// The value of the first cookie called `name` in a `Cookie` header: the
/// header is cut at each `;`, each segment is trimmed, and the first segment
/// that begins with `name=` gives what follows the `=`.
pub open spec fn cookie_value(header: Seq<char>, name: Seq<char>) -> Option<Seq<char>>
    decreases header.len(),
{
    let cut = segment_len(header);
    let segment = trim(header.take(cut));
    let key = name.push('=');
    if has_prefix(segment, key) {
        Some(segment.skip(key.len() as int))
    } else if 0 <= cut < header.len() {
        cookie_value(header.skip(cut + 1), name)
    } else {
        None
    }
}

/// A segment ends at the first `;`, or where the text ends.
proof fn lemma_segment_len(s: Seq<char>, n: int)
    requires
        0 <= n <= s.len(),
        forall|k: int| 0 <= k < n ==> #[trigger] s[k] != ';',
        n < s.len() ==> s[n] == ';',
    ensures
        segment_len(s) == n,
    decreases n,
{
    if n > 0 {
        let rest = s.skip(1);
        assert forall|k: int| 0 <= k < n - 1 implies #[trigger] rest[k] != ';' by {
            assert(rest[k] == s[k + 1]);
        }
        lemma_segment_len(rest, n - 1);
    }
}

/// A header that holds one cookie and nothing else gives that cookie's value:
/// what `name=value` sets is what comes back, as long as neither part holds a
/// `;` and no white space stands at either end.
pub proof fn lemma_lone_cookie_is_found(name: Seq<char>, value: Seq<char>)
    requires
        forall|i: int| 0 <= i < name.len() ==> #[trigger] name[i] != ';',
        forall|i: int| 0 <= i < value.len() ==> #[trigger] value[i] != ';',
        name.len() > 0 ==> !is_whitespace(name[0]),
        value.len() > 0 ==> !is_whitespace(value.last()),
    ensures
        cookie_value(name.push('=') + value, name) == Some(value),
{
    let key = name.push('=');
    let header = key + value;
    assert forall|k: int| 0 <= k < header.len() implies #[trigger] header[k] != ';' by {
        if k < name.len() {
            assert(header[k] == name[k]);
        } else if k > name.len() {
            assert(header[k] == value[k - key.len()]);
        }
    }
    lemma_segment_len(header, header.len() as int);
    assert(header.take(header.len() as int) =~= header);
    assert(!is_whitespace(header[0])) by {
        if name.len() > 0 {
            assert(header[0] == name[0]);
        }
    }
    lemma_trim_start_is_skip(header, 0);
    assert(header.skip(0) =~= header);
    assert(!is_whitespace(header.last())) by {
        if value.len() > 0 {
            assert(header.last() == value.last());
        }
    }
    lemma_trim_end_is_take(header, header.len() as int);
    assert(trim(header) == header);
    assert(header.take(key.len() as int) =~= key);
    assert(header.skip(key.len() as int) =~= value);
}

/// The value of the first cookie called `name` in a `Cookie` header.
pub fn find_cookie(header: &str, name: &str) -> (r: Option<String>)
    ensures
        match cookie_value(header@, name@) {
            Some(value) => r matches Some(found) && found@ == value,
            None => r is None,
        },
{
    let text = chars_of(header);
    let mut key = chars_of(name);
    key.push('=');
    let mut start: usize = 0;
    assert(text@.skip(0) =~= text@);
    loop
        invariant
            text@ == header@,
            key@ == name@.push('='),
            0 <= start <= text.len(),
            cookie_value(header@, name@) == cookie_value(text@.skip(start as int), name@),
        decreases text.len() - start,
    {
        let ghost rest = text@.skip(start as int);
        let mut end: usize = start;
        while end < text.len() && text[end] != ';'
            invariant
                start <= end <= text.len(),
                rest == text@.skip(start as int),
                forall|k: int| 0 <= k < end - start ==> #[trigger] rest[k] != ';',
            decreases text.len() - end,
        {
            end += 1;
        }
        proof {
            lemma_segment_len(rest, end - start);
            assert(rest.take(end - start) =~= text@.subrange(start as int, end as int));
        }
        let (from, to) = trim_bounds(&text, start, end);
        if starts_with(&text, from, to, &key) {
            proof {
                assert(text@.subrange(from as int, to as int).skip(key.len() as int)
                    =~= text@.subrange(from + key.len(), to as int));
            }
            return Some(string_of(&text, from + key.len(), to));
        }
        if end >= text.len() {
            return None;
        }
        proof {
            assert(rest.skip(end - start + 1) =~= text@.skip(end + 1));
        }
        start = end + 1;
    }
}

/// The outcome of resolving a request's identity. The failures stand in the
/// order of the stages; a later one tells that the earlier stages passed.
#[derive(Debug)]
pub enum Resolution {
    /// The request has no readable `Cookie` header.
    NoCookieHeader,
    /// The header holds no authentication cookie.
    NoToken,
    /// The cookie's token does not verify.
    TokenInvalid,
    /// The token's subject is no identifier.
    SubjectUnparseable,
    /// No user has the identifier.
    UserNotFound,
    /// The user who sent the request.
    Resolved(User),
}

/// What is left to do for a request once its header has been read.
#[derive(Debug)]
pub enum Pending {
    /// The user with this identifier is to be looked up.
    Lookup(i64),
    /// The outcome is settled without a look-up.
    Settled(Resolution),
}

/// The text of a header that may be missing.
pub open spec fn header_text(header: Option<&str>) -> Option<Seq<char>> {
    match header {
        Some(text) => Some(text@),
        None => None,
    }
}

/// What the stages before the look-up come to, for a header and the instant
/// `now`, with tokens verified under `secret`.
pub open spec fn before_lookup(header: Option<Seq<char>>, secret: Seq<char>, now: int) -> Pending {
    match header {
        None => Pending::Settled(Resolution::NoCookieHeader),
        Some(text) => match cookie_value(text, AUTH_COOKIE@) {
            None => Pending::Settled(Resolution::NoToken),
            Some(token) => match accepted_claims(hs256_payload(token, secret), now) {
                None => Pending::Settled(Resolution::TokenInvalid),
                Some(claims) => match parsed_i64(claims.sub) {
                    None => Pending::Settled(Resolution::SubjectUnparseable),
                    Some(id) => Pending::Lookup(id),
                },
            },
        },
    }
}

/// What the stages before the look-up come to at the instant `now`, `now`
/// being a reading of the clock.
pub open spec fn before_lookup_at(header: Option<Seq<char>>, secret: Seq<char>, now: i64) -> Pending {
    before_lookup(header, secret, now as int)
}

/// What a look-up in the store comes to: the user that it gave, and no user
/// for every failure of the store, a missing row or any other. A failing
/// store thus looks like a signed-out visitor to the optional policy.
pub open spec fn after_store(outcome: Result<User, StoreError>) -> Resolution {
    match outcome {
        Ok(user) => Resolution::Resolved(user),
        Err(_) => Resolution::UserNotFound,
    }
}

/// What a look-up comes to.
pub open spec fn after_lookup(found: Option<User>) -> Resolution {
    match found {
        Some(user) => Resolution::Resolved(user),
        None => Resolution::UserNotFound,
    }
}

/// The fault that a resolution tells of. A request without credentials is
/// no fault, and is to be told apart from one whose credentials failed.
pub open spec fn fault_of(resolution: Resolution) -> Option<AuthError> {
    match resolution {
        Resolution::NoCookieHeader => None,
        Resolution::NoToken => None,
        Resolution::TokenInvalid => Some(AuthError::TokenInvalid),
        Resolution::SubjectUnparseable => Some(AuthError::IdentityUnresolvable),
        Resolution::UserNotFound => Some(AuthError::IdentityUnresolvable),
        Resolution::Resolved(_) => None,
    }
}

/// The internal reason that goes with a failed resolution. It is meant for
/// logs, not for clients.
pub open spec fn reason_of(resolution: Resolution) -> Seq<char> {
    match resolution {
        Resolution::NoCookieHeader => "Missing cookies"@,
        Resolution::NoToken => "auth_token cookie not found"@,
        Resolution::TokenInvalid => "Invalid token"@,
        Resolution::SubjectUnparseable => "Invalid user id in token"@,
        Resolution::UserNotFound => "Something went wrong"@,
        Resolution::Resolved(_) => Seq::empty(),
    }
}

impl Resolution {
    /// The stages before the look-up, at the instant `now`: finds the
    /// authentication cookie in the `Cookie` header, verifies its token with
    /// `service` and reads the subject as an identifier. The first stage that
    /// fails settles the outcome.
    pub fn begin_at(header: Option<&str>, service: &AuthService, now: i64) -> (next: Pending)
        ensures
            next == before_lookup(header_text(header), service.secret(), now as int),
    {
        let text = match header {
            Some(text) => text,
            None => { return Pending::Settled(Resolution::NoCookieHeader); },
        };
        let token = match find_cookie(text, AUTH_COOKIE) {
            Some(token) => token,
            None => { return Pending::Settled(Resolution::NoToken); },
        };
        let claims = match service.verify_token_at(token.as_str(), now) {
            Ok(claims) => claims,
            Err(_) => { return Pending::Settled(Resolution::TokenInvalid); },
        };
        match parse_i64(claims.sub.as_str()) {
            Some(id) => Pending::Lookup(id),
            None => Pending::Settled(Resolution::SubjectUnparseable),
        }
    }

    /// The stages before the look-up, at the clock's reading.
    pub fn begin(header: Option<&str>, service: &AuthService) -> (next: Pending)
        ensures
            exists|now: i64|
                next == #[trigger] before_lookup_at(header_text(header), service.secret(), now),
    {
        let now = unix_now();
        let next = Self::begin_at(header, service, now);
        assert(next == before_lookup_at(header_text(header), service.secret(), now));
        next
    }

    /// The stage after the look-up: the user that was found, or
    /// `UserNotFound`.
    pub fn conclude(found: Option<User>) -> (resolution: Resolution)
        ensures
            resolution == after_lookup(found),
    {
        match found {
            Some(user) => Resolution::Resolved(user),
            None => Resolution::UserNotFound,
        }
    }

    /// The stage after the look-up, given what the store made of it: the user
    /// that it gave, or `UserNotFound` for every failure of the store.
    pub fn conclude_lookup(outcome: Result<User, StoreError>) -> (resolution: Resolution)
        ensures
            resolution == after_store(outcome),
            resolution == after_lookup(
                match outcome {
                    Ok(user) => Some(user),
                    Err(_) => None,
                },
            ),
    {
        match outcome {
            Ok(user) => Self::conclude(Some(user)),
            Err(_) => Self::conclude(None),
        }
    }

    /// The fault that the resolution tells of: none where a user was
    /// resolved or the request came without credentials.
    pub fn fault(&self) -> (fault: Option<AuthError>)
        ensures
            fault == fault_of(*self),
    {
        match self {
            Resolution::NoCookieHeader => None,
            Resolution::NoToken => None,
            Resolution::TokenInvalid => Some(AuthError::TokenInvalid),
            Resolution::SubjectUnparseable => Some(AuthError::IdentityUnresolvable),
            Resolution::UserNotFound => Some(AuthError::IdentityUnresolvable),
            Resolution::Resolved(_) => None,
        }
    }
}

/// Why a request was turned away.
#[derive(Debug)]
pub struct Rejection {
    /// The response status, always 401.
    pub status: u16,
    /// The internal reason.
    pub reason: &'static str,
}

/// What the mandatory policy makes of a resolution: the user, or a rejection.
pub open spec fn required(resolution: Resolution) -> Result<User, (u16, Seq<char>)> {
    match resolution {
        Resolution::Resolved(user) => Ok(user),
        _ => Err((UNAUTHORIZED, reason_of(resolution))),
    }
}

/// What the optional policy makes of a resolution: the user, or nobody.
pub open spec fn optional(resolution: Resolution) -> Option<User> {
    match resolution {
        Resolution::Resolved(user) => Some(user),
        _ => None,
    }
}

/// The user who sent a request that only signed-in users may send.
#[derive(Debug)]
pub struct CurrentUser(pub User);

/// The user who sent a request that anybody may send, if they are signed in.
#[derive(Debug)]
pub struct MaybeUser(pub Option<User>);

impl CurrentUser {
    /// The mandatory policy: a resolved user passes, every failure is
    /// rejected as unauthorized, with the reason that tells the stage.
    pub fn from_resolution(resolution: Resolution) -> (r: Result<CurrentUser, Rejection>)
        ensures
            match required(resolution) {
                Ok(user) => r matches Ok(current) && current.0 == user,
                Err((status, reason)) => r matches Err(rejection) && rejection.status == status
                    && rejection.reason@ == reason,
            },
    {
        match resolution {
            Resolution::NoCookieHeader => Err(
                Rejection { status: UNAUTHORIZED, reason: "Missing cookies" },
            ),
            Resolution::NoToken => Err(
                Rejection { status: UNAUTHORIZED, reason: "auth_token cookie not found" },
            ),
            Resolution::TokenInvalid => Err(
                Rejection { status: UNAUTHORIZED, reason: "Invalid token" },
            ),
            Resolution::SubjectUnparseable => Err(
                Rejection { status: UNAUTHORIZED, reason: "Invalid user id in token" },
            ),
            Resolution::UserNotFound => Err(
                Rejection { status: UNAUTHORIZED, reason: "Something went wrong" },
            ),
            Resolution::Resolved(user) => Ok(CurrentUser(user)),
        }
    }
}

impl MaybeUser {
    /// The optional policy: a resolved user passes, every failure passes as
    /// anonymous.
    pub fn from_resolution(resolution: Resolution) -> (r: MaybeUser)
        ensures
            r.0 == optional(resolution),
    {
        match resolution {
            Resolution::Resolved(user) => MaybeUser(Some(user)),
            _ => MaybeUser(None),
        }
    }
}

/// The two policies resolve the same requests to the same users: the
/// mandatory one rejects exactly where the optional one is anonymous, and
/// always as unauthorized.
pub proof fn lemma_policies_agree(resolution: Resolution)
    ensures
        required(resolution) is Ok <==> optional(resolution) is Some,
        required(resolution) matches Ok(user) ==> optional(resolution) == Some(user),
        required(resolution) matches Err(rejection) ==> rejection.0 == 401,
        fault_of(resolution) is Some ==> required(resolution) is Err,
{
}

/// Without a `Cookie` header no stage is passed, whatever the secret and the
/// time: the mandatory policy rejects and the optional one is anonymous.
pub proof fn lemma_no_header_no_identity(secret: Seq<char>, now: int)
    ensures
        before_lookup(None, secret, now) == Pending::Settled(Resolution::NoCookieHeader),
        required(Resolution::NoCookieHeader) is Err,
        optional(Resolution::NoCookieHeader) is None,
{
}

/// A token whose subject is no longer in the store resolves to nobody: the
/// mandatory policy rejects and the optional one is anonymous.
pub proof fn lemma_missing_user_no_identity()
    ensures
        after_lookup(None) == Resolution::UserNotFound,
        required(after_lookup(None)) is Err,
        optional(after_lookup(None)) is None,
{
}

/// A token that the decoder rejects under the service's secret, as one
/// signed with another secret is, resolves to nobody, whatever it claims: the
/// mandatory policy rejects with 401 and `Invalid token`, the optional one is
/// anonymous, and no look-up is asked for.
pub proof fn lemma_rejected_token_no_identity(header: Seq<char>, secret: Seq<char>, now: int)
    requires
        cookie_value(header, AUTH_COOKIE@) matches Some(token) && hs256_payload(token, secret)
            is None,
    ensures
        before_lookup(Some(header), secret, now) == Pending::Settled(Resolution::TokenInvalid),
        required(Resolution::TokenInvalid) == Err::<User, (u16, Seq<char>)>(
            (401u16, "Invalid token"@),
        ),
        optional(Resolution::TokenInvalid) is None,
{
}

/// The cookie that carries an issued token asks for the look-up of the user
/// it was issued for, by that user's identifier, until the token expires; and
/// the user that the look-up gives is the one resolved, under both policies.
/// This holds wherever the decoder reads from the token the payload that the
/// encoder was given, which is the outside coder's and is asked for here, and
/// the token holds no `;` and does not end in white space.
pub proof fn lemma_issued_cookie_resolves(
    id: i64,
    email: Seq<char>,
    secret: Seq<char>,
    now: int,
    later: int,
    token: Seq<char>,
    user: User,
)
    requires
        issued(id, email, secret, now) == Ok::<Seq<char>, AuthError>(token),
        hs256_payload(token, secret) == Some(
            session_payload(session_claims(id, email, expiry(now).unwrap())),
        ),
        later <= now + SESSION_SECONDS,
        forall|i: int| 0 <= i < token.len() ==> #[trigger] token[i] != ';',
        token.len() > 0 ==> !is_whitespace(token.last()),
    ensures
        before_lookup(Some(AUTH_COOKIE@.push('=') + token), secret, later) == Pending::Lookup(id),
        required(after_lookup(Some(user))) == Ok::<User, (u16, Seq<char>)>(user),
        optional(after_lookup(Some(user))) == Some(user),
{
    reveal_strlit("auth_token");
    lemma_lone_cookie_is_found(AUTH_COOKIE@, token);
    lemma_issued_token_verifies(id, email, secret, now, later, token);
}

/// A failure tells the stage that failed: every stage before it passed.
pub proof fn lemma_failure_tells_the_stage(header: Option<Seq<char>>, secret: Seq<char>, now: int)
    ensures
        before_lookup(header, secret, now) == Pending::Settled(Resolution::NoCookieHeader)
            <==> header is None,
        before_lookup(header, secret, now) == Pending::Settled(Resolution::NoToken) <==> (header
            matches Some(text) && cookie_value(text, AUTH_COOKIE@) is None),
        before_lookup(header, secret, now) == Pending::Settled(Resolution::TokenInvalid) <==> (
        header matches Some(text) && cookie_value(text, AUTH_COOKIE@) matches Some(token)
            && accepted_claims(hs256_payload(token, secret), now) is None),
        before_lookup(header, secret, now) == Pending::Settled(Resolution::SubjectUnparseable)
            <==> (header matches Some(text) && cookie_value(text, AUTH_COOKIE@) matches Some(token)
            && accepted_claims(hs256_payload(token, secret), now) matches Some(claims)
            && parsed_i64(claims.sub) is None),
{
}

/// A failure before the look-up asks for no look-up, and a look-up is asked
/// for only with the identifier that the token's subject spells.
pub proof fn lemma_lookup_needs_valid_token(header: Option<Seq<char>>, secret: Seq<char>, now: int)
    ensures
        before_lookup(header, secret, now) matches Pending::Lookup(id) ==> {
            &&& header matches Some(text)
            &&& cookie_value(text, AUTH_COOKIE@) matches Some(token)
            &&& accepted_claims(hs256_payload(token, secret), now) matches Some(claims)
            &&& parsed_i64(claims.sub) == Some(id)
            &&& claims.exp >= now
        },
        before_lookup(header, secret, now) matches Pending::Settled(resolution) ==> !(resolution is Resolved)
            && !(resolution is UserNotFound),
{
}

} // verus!
