//! What signing in and signing up answer.

use crate::decimal::{decimal, digits};
use crate::extractors::current_user::AUTH_COOKIE;
use crate::routes::{Notice, NoticeText};
use crate::store::StoreError;
use crate::user::auth::{login_result, password_matches, Account, AuthError};
use crate::user::User;
use axum_extra::extract::cookie::{Cookie, SameSite};
use vstd::prelude::*;

verus! {

/// The `SameSite` attribute of a cookie.
#[derive(Clone, Copy, Debug, PartialEq, Eq, Structural)]
pub enum SameSitePolicy {
    Strict,
    Lax,
    /// Sent with every request, written `SameSite=None`.
    CrossSite,
}

/// How a `SameSite` attribute is written.
pub open spec fn same_site_text(policy: SameSitePolicy) -> Seq<char> {
    match policy {
        SameSitePolicy::Strict => "Strict"@,
        SameSitePolicy::Lax => "Lax"@,
        SameSitePolicy::CrossSite => "None"@,
    }
}

/// The value of a `Set-Cookie` header: the pair, then the attributes in the
/// order `HttpOnly`, `SameSite`, `Secure`, `Path`, `Max-Age`. Nothing is
/// escaped.
pub open spec fn set_cookie_text(
    name: Seq<char>,
    value: Seq<char>,
    path: Seq<char>,
    http_only: bool,
    same_site: SameSitePolicy,
    secure: bool,
    max_age_days: int,
) -> Seq<char> {
    name + "="@ + value + (if http_only {
        "; HttpOnly"@
    } else {
        Seq::empty()
    }) + "; SameSite="@ + same_site_text(same_site) + (if secure {
        "; Secure"@
    } else {
        Seq::empty()
    }) + "; Path="@ + path + "; Max-Age="@ + decimal(max_age_days * 86400)
}

/// The builder of `axum_extra::extract::cookie::Cookie` and the cookie's
/// `to_string`: a cookie with the given pair, path, `HttpOnly`, `SameSite` and
/// `Secure` settings and a `Max-Age` of `time::Duration::days(max_age_days)`,
/// written as a `Set-Cookie` value.
///
/// Trusted: the text is the pair and the attributes as `set_cookie_text`
/// spells them. The bound keeps `Duration::days` from overflowing.
#[verifier::external_body]
fn render_cookie(
    name: &str,
    value: &str,
    path: &str,
    http_only: bool,
    same_site: SameSitePolicy,
    secure: bool,
    max_age_days: i64,
) -> (text: String)
    requires
        i64::MIN <= max_age_days * 86400 <= i64::MAX,
    ensures
        text@ == set_cookie_text(
            name@,
            value@,
            path@,
            http_only,
            same_site,
            secure,
            max_age_days as int,
        ),
{
    let same_site = match same_site {
        SameSitePolicy::Strict => SameSite::Strict,
        SameSitePolicy::Lax => SameSite::Lax,
        SameSitePolicy::CrossSite => SameSite::None,
    };
    Cookie::build((name, value)).path(path).http_only(http_only).same_site(same_site).secure(
        secure,
    ).max_age(time::Duration::days(max_age_days)).build().to_string()
}

/// For how many days a browser keeps the session cookie. The token in it
/// expires long before: the cookie then no longer signs anybody in.
pub const COOKIE_DAYS: i64 = 365;

/// The `Set-Cookie` value that hands a session token to the browser.
pub open spec fn session_cookie_text(token: Seq<char>) -> Seq<char> {
    "auth_token="@ + token + "; HttpOnly; SameSite=Lax; Secure; Path=/; Max-Age=31536000"@
}

/// The session cookie is the authentication cookie with the path `/`,
/// `HttpOnly`, `SameSite=Lax`, `Secure` and a `Max-Age` of 365 days.
pub proof fn lemma_session_cookie_text(token: Seq<char>)
    ensures
        set_cookie_text(AUTH_COOKIE@, token, "/"@, true, SameSitePolicy::Lax, true, 365)
            == session_cookie_text(token),
{
    reveal_strlit("auth_token");
    reveal_strlit("auth_token=");
    reveal_strlit("=");
    reveal_strlit("/");
    reveal_strlit("; HttpOnly");
    reveal_strlit("; SameSite=");
    reveal_strlit("Lax");
    reveal_strlit("; Secure");
    reveal_strlit("; Path=");
    reveal_strlit("; Max-Age=");
    reveal_strlit("; HttpOnly; SameSite=Lax; Secure; Path=/; Max-Age=31536000");
    reveal_with_fuel(digits, 9);
    assert(decimal(365 * 86400int) =~= seq!['3', '1', '5', '3', '6', '0', '0', '0']);
    assert(set_cookie_text(AUTH_COOKIE@, token, "/"@, true, SameSitePolicy::Lax, true, 365)
        =~= session_cookie_text(token));
}

/// The `Set-Cookie` value that hands `token` to the browser.
pub fn session_cookie(token: &str) -> (text: String)
    ensures
        text@ == session_cookie_text(token@),
{
    proof {
        lemma_session_cookie_text(token@);
    }
    render_cookie(AUTH_COOKIE, token, "/", true, SameSitePolicy::Lax, true, COOKIE_DAYS)
}

/// The answer to an attempt to sign in.
#[derive(Debug)]
pub struct SigninReply {
    /// The `Set-Cookie` value, where the visitor is signed in.
    pub set_cookie: Option<String>,
    pub notice: Notice,
}

/// What the answer to an attempt to sign in holds: for a token, the session
/// cookie and a success; for none, no cookie and one message, whatever the
/// reason; for a failure of the service, no cookie and another message.
pub open spec fn signin_answer<E>(outcome: Result<Option<Seq<char>>, E>) -> (
    Option<Seq<char>>,
    NoticeText,
) {
    match outcome {
        Ok(Some(token)) => (
            Some(session_cookie_text(token)),
            NoticeText::Success("Login successful!"@),
        ),
        Ok(None) => (None, NoticeText::Error("Invalid email or password. Please try again."@)),
        Err(_) => (None, NoticeText::Error("An unexpected error occurred. Please try again."@)),
    }
}

/// The answer to an attempt to sign in, given what the attempt came to.
pub fn signin_reply<E>(outcome: Result<Option<String>, E>) -> (reply: SigninReply)
    ensures
        ({
            let answer = signin_answer(
                match outcome {
                    Ok(Some(token)) => Ok(Some(token@)),
                    Ok(None) => Ok(None),
                    Err(e) => Err(e),
                },
            );
            &&& reply.notice@ == answer.1
            &&& match answer.0 {
                Some(cookie) => reply.set_cookie matches Some(text) && text@ == cookie,
                None => reply.set_cookie is None,
            }
        }),
{
    match outcome {
        Ok(Some(token)) => SigninReply {
            set_cookie: Some(session_cookie(token.as_str())),
            notice: Notice::Success("Login successful!"),
        },
        Ok(None) => SigninReply {
            set_cookie: None,
            notice: Notice::Error("Invalid email or password. Please try again."),
        },
        Err(_) => SigninReply {
            set_cookie: None,
            notice: Notice::Error("An unexpected error occurred. Please try again."),
        },
    }
}

/// A wrong password is answered as an unknown address is: without a cookie
/// and with the same message.
pub proof fn lemma_signin_hides_the_reason(
    account: Account,
    password: Seq<char>,
    secret: Seq<char>,
    now: int,
)
    requires
        !password_matches(password, account.password_hash@),
    ensures
        signin_answer(login_result(Some(account), password, secret, now)) == signin_answer(
            login_result(None, password, secret, now),
        ),
        signin_answer(login_result(Some(account), password, secret, now)).0 is None,
        signin_answer(login_result(Some(account), password, secret, now)).1 is Error,
{
}

/// A cookie is set exactly where signing in gave a token, and it then carries
/// that token.
pub proof fn lemma_cookie_carries_the_token(outcome: Result<Option<Seq<char>>, AuthError>)
    ensures
        signin_answer(outcome).0 is Some <==> outcome matches Ok(Some(_)),
        outcome matches Ok(Some(token)) ==> signin_answer(outcome).0 == Some(
            session_cookie_text(token),
        ),
{
}

/// The answer to an attempt to sign up.
#[derive(Debug)]
pub struct SignupReply {
    pub notice: Notice,
    /// Whether the form is shown again with what the visitor had entered.
    pub keep_form: bool,
}

/// What the answer to an attempt to sign up holds.
pub open spec fn signup_answer(outcome: Result<User, StoreError>) -> (NoticeText, bool) {
    match outcome {
        Ok(_) => (NoticeText::Success("Congratulations! You may now sign in."@), false),
        Err(StoreError::UniqueViolation) => (
            NoticeText::Error("Email already exists. Please try again."@),
            true,
        ),
        Err(_) => (NoticeText::Error("An unexpected error occurred. Please try again."@), true),
    }
}

/// The answer to an attempt to sign up, given what the store made of it.
pub fn signup_reply(outcome: &Result<User, StoreError>) -> (reply: SignupReply)
    ensures
        reply.notice@ == signup_answer(*outcome).0,
        reply.keep_form == signup_answer(*outcome).1,
{
    match outcome {
        Ok(_) => SignupReply {
            notice: Notice::Success("Congratulations! You may now sign in."),
            keep_form: false,
        },
        Err(StoreError::UniqueViolation) => SignupReply {
            notice: Notice::Error("Email already exists. Please try again."),
            keep_form: true,
        },
        Err(_) => SignupReply {
            notice: Notice::Error("An unexpected error occurred. Please try again."),
            keep_form: true,
        },
    }
}

} // verus!
