use wordford::extractors::current_user::{CurrentUser, Pending, Resolution};
use wordford::routes::Notice;
use wordford::store::StoreError;
use wordford::user::auth::{hash_password, Account, AuthError, AuthService};
use wordford::user::repository::{
    avatar_url, critter_number, inserted_user, new_user, pick_avatar, CRITTERS, DEFAULT_ROLE,
};
use wordford::user::routes::{session_cookie, signin_reply, signup_reply, COOKIE_DAYS};
use wordford::user::service::{prepare_registration, store_hash};
use wordford::user::{CreateUserRequest, User};

const COST_4_HASH_OF_PASSWORD: &str =
    "$2a$04$UuTkLRZZ6QofpDOlMz32MuuxEHA43WOemOYHPz6.SjsVsyO1tDU96";

fn account(hash: &str) -> Account {
    Account { id: 7, email: "a@b.com".to_string(), password_hash: hash.to_string() }
}

fn request() -> CreateUserRequest {
    CreateUserRequest {
        email: "a@b.com".to_string(),
        password: "secret".to_string(),
        given_name: "Ada".to_string(),
        family_name: "Byron".to_string(),
    }
}

fn user(id: i64) -> User {
    new_user(id, &request(), "avatar".to_string(), "then".to_string(), "now".to_string())
}

#[test]
fn login_sets_a_cookie_that_resolves_to_the_user() {
    let auth = AuthService::new("signing secret".to_string());
    let hash = hash_password("secret").expect("hashing works");
    let account = account(&hash);
    let now = 1_700_000_000;
    let token = auth.login_at(Some(&account), "secret", now).expect("no fault").expect("a token");
    let claims = auth.verify_token_at(&token, now).expect("valid");
    assert_eq!(claims.sub, "7");
    assert_eq!(claims.email, "a@b.com");
    assert_eq!(claims.exp, 1_700_086_400);

    let reply = signin_reply::<AuthError>(Ok(Some(token.clone())));
    assert!(matches!(reply.notice, Notice::Success("Login successful!")));
    let set_cookie = reply.set_cookie.expect("a cookie");
    assert_eq!(
        set_cookie,
        format!("auth_token={}; HttpOnly; SameSite=Lax; Secure; Path=/; Max-Age=31536000", token)
    );

    let sent_back = set_cookie.split(';').next().expect("the pair").to_string();
    let id = match Resolution::begin_at(Some(&sent_back), &auth, now + 3600) {
        Pending::Lookup(id) => id,
        Pending::Settled(_) => panic!("settled"),
    };
    assert_eq!(id, 7);
    let current = CurrentUser::from_resolution(Resolution::conclude(Some(user(id)))).expect("ok");
    assert_eq!(current.0.id, 7);
    assert_eq!(current.0.email, "a@b.com");
}

#[test]
fn login_at_the_clock_signs_in() {
    let auth = AuthService::new("signing secret".to_string());
    let account = account(COST_4_HASH_OF_PASSWORD);
    let token = auth.login(Some(&account), "password").expect("no fault").expect("a token");
    assert_eq!(auth.verify_token(&token).expect("valid").sub, "7");
    assert_eq!(auth.login(Some(&account), "Password").expect("no fault"), None);
    assert_eq!(auth.login(None, "password").expect("no fault"), None);
}

#[test]
fn wrong_password_is_answered_as_unknown_email() {
    let auth = AuthService::new("signing secret".to_string());
    let account = account(COST_4_HASH_OF_PASSWORD);
    let wrong = auth.login_at(Some(&account), "not the password", 0);
    let unknown = auth.login_at(None, "password", 0);
    assert_eq!(wrong, Ok(None));
    assert_eq!(unknown, Ok(None));
    let to_wrong = signin_reply(wrong);
    let to_unknown = signin_reply(unknown);
    assert!(to_wrong.set_cookie.is_none());
    assert!(to_unknown.set_cookie.is_none());
    assert!(matches!(
        to_wrong.notice,
        Notice::Error("Invalid email or password. Please try again.")
    ));
    assert!(matches!(
        to_unknown.notice,
        Notice::Error("Invalid email or password. Please try again.")
    ));
}

#[test]
fn corrupt_stored_hash_signs_nobody_in() {
    let auth = AuthService::new("signing secret".to_string());
    assert_eq!(auth.login_at(Some(&account("corrupt")), "secret", 0), Ok(None));
    assert_eq!(auth.login_at(Some(&account("")), "", 0), Ok(None));
}

#[test]
fn login_fails_where_no_token_can_be_issued() {
    let auth = AuthService::new("signing secret".to_string());
    let account = account(COST_4_HASH_OF_PASSWORD);
    assert_eq!(
        auth.login_at(Some(&account), "password", i64::MIN),
        Err(AuthError::ConfigurationFault)
    );
    assert_eq!(auth.login_at(Some(&account), "wrong", i64::MIN), Ok(None));
}

#[test]
fn failed_service_is_answered_without_cookie() {
    let reply = signin_reply(Err::<Option<String>, AuthError>(AuthError::ConfigurationFault));
    assert!(reply.set_cookie.is_none());
    assert!(matches!(
        reply.notice,
        Notice::Error("An unexpected error occurred. Please try again.")
    ));
    let reply = signin_reply(Err::<Option<String>, StoreError>(StoreError::Other));
    assert!(reply.set_cookie.is_none());
    assert!(matches!(
        reply.notice,
        Notice::Error("An unexpected error occurred. Please try again.")
    ));
}

#[test]
fn session_cookie_has_the_fixed_attributes() {
    assert_eq!(COOKIE_DAYS, 365);
    assert_eq!(
        session_cookie("abc"),
        "auth_token=abc; HttpOnly; SameSite=Lax; Secure; Path=/; Max-Age=31536000"
    );
    assert_eq!(
        session_cookie(""),
        "auth_token=; HttpOnly; SameSite=Lax; Secure; Path=/; Max-Age=31536000"
    );
    assert_eq!(
        session_cookie("a b;c=%"),
        "auth_token=a b;c=%; HttpOnly; SameSite=Lax; Secure; Path=/; Max-Age=31536000"
    );
}

#[test]
fn signup_is_answered_by_outcome() {
    let done = signup_reply(&Ok(user(1)));
    assert!(matches!(done.notice, Notice::Success("Congratulations! You may now sign in.")));
    assert!(!done.keep_form);
    let taken = signup_reply(&Err(StoreError::UniqueViolation));
    assert!(matches!(taken.notice, Notice::Error("Email already exists. Please try again.")));
    assert!(taken.keep_form);
    for error in [StoreError::Other, StoreError::RowNotFound, StoreError::ForeignKeyViolation] {
        let failed = signup_reply(&Err(error));
        assert!(matches!(
            failed.notice,
            Notice::Error("An unexpected error occurred. Please try again.")
        ));
        assert!(failed.keep_form);
    }
}

#[test]
fn hash_takes_the_place_of_the_password() {
    let mut stored = request();
    assert_eq!(store_hash(&mut stored, Ok("the hash".to_string())), Ok(()));
    assert_eq!(stored.password, "the hash");
    assert_eq!(stored.email, "a@b.com");
    assert_eq!(stored.given_name, "Ada");
    assert_eq!(stored.family_name, "Byron");
    let mut kept = request();
    assert_eq!(
        store_hash(&mut kept, Err(AuthError::ConfigurationFault)),
        Err(AuthError::ConfigurationFault)
    );
    assert_eq!(kept.password, "secret");
    assert_eq!(kept.email, "a@b.com");
}

#[test]
fn registration_stores_a_hash_of_the_password() {
    let mut request = request();
    prepare_registration(&mut request).expect("hashing works");
    assert_ne!(request.password, "secret");
    assert_eq!(request.password.len(), 60);
    assert!(request.password.starts_with("$2b$12$"));
    assert!(AuthService::verify_password("secret", &request.password));
    assert_eq!(request.email, "a@b.com");
    assert_eq!(request.given_name, "Ada");
    assert_eq!(request.family_name, "Byron");
}

#[test]
fn avatar_is_one_of_eleven() {
    assert_eq!(CRITTERS, 11);
    assert_eq!(critter_number(0), 1);
    assert_eq!(critter_number(10), 11);
    assert_eq!(critter_number(11), 1);
    assert_eq!(critter_number(255), 3);
    for byte in 0..=255u8 {
        let number = critter_number(byte);
        assert!((1..=11).contains(&number));
        assert_eq!(number, byte % 11 + 1);
        assert_eq!(
            avatar_url(byte),
            format!("http://localhost:3000/assets/images/critter_{}.svg", number)
        );
    }
    assert_eq!(avatar_url(0), "http://localhost:3000/assets/images/critter_1.svg");
    assert_eq!(avatar_url(21), "http://localhost:3000/assets/images/critter_11.svg");
}

#[test]
fn picked_avatar_is_one_of_eleven() {
    let all: Vec<String> = (1..=11)
        .map(|n| format!("http://localhost:3000/assets/images/critter_{}.svg", n))
        .collect();
    for _ in 0..200 {
        assert!(all.contains(&pick_avatar()));
    }
}

#[test]
fn new_user_is_what_was_requested() {
    assert_eq!(DEFAULT_ROLE, 1);
    let user = new_user(5, &request(), "avatar".to_string(), "then".to_string(), "now".to_string());
    assert_eq!(user.id, 5);
    assert_eq!(user.email, "a@b.com");
    assert_eq!(user.given_name, "Ada");
    assert_eq!(user.family_name, "Byron");
    assert_eq!(user.avatar_url, "avatar");
    assert_eq!(user.role, 1);
    assert_eq!(user.created_at, "then");
    assert_eq!(user.updated_at, "now");
    let inserted = inserted_user(6, &request(), "avatar".to_string());
    assert_eq!(inserted.id, 6);
    assert_eq!(inserted.email, "a@b.com");
    assert_eq!(inserted.given_name, "Ada");
    assert_eq!(inserted.family_name, "Byron");
    assert_eq!(inserted.avatar_url, "avatar");
    assert_eq!(inserted.role, 1);
    assert!(inserted.created_at.ends_with(" UTC"));
    assert!(inserted.updated_at.ends_with(" UTC"));
}
