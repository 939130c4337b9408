use vstd::prelude::*;
use vstd::string::{StrSliceExecFns, StringExecFns};
use argon2::{PasswordHasher, PasswordVerifier};
use crate::clock::current_time;
use crate::errors::{AppError, ErrorKind};
use crate::models::CreateUser;
use crate::text::{lower_of, lowercase, trim, trimmed};

verus! {

/// The identity of an authenticated caller.
#[derive(Debug, Clone, Copy, PartialEq, Eq, Structural)]
pub struct AuthUser {
    pub user_id: i64,
}

/// The claims of an access token: the user and the expiry, in seconds since
/// the Unix epoch.
#[derive(Debug, Clone, Copy, PartialEq, Eq, Structural)]
pub struct Claims {
    pub sub: i64,
    pub exp: usize,
}

/// The body of a registration request.
#[derive(Debug, Clone)]
pub struct RegisterRequest {
    pub email: String,
    pub password: String,
}

/// The body of a login request.
#[derive(Debug, Clone)]
pub struct LoginRequest {
    pub email: String,
    pub password: String,
}

/// How long an access token stays valid, in seconds.
pub const TOKEN_LIFETIME_SECS: i64 = 86400;

pub open spec fn bearer_prefix() -> Seq<char> {
    "Bearer "@
}

/// `s` with every leading copy of the bearer prefix removed.
pub open spec fn strip_bearer(s: Seq<char>) -> Seq<char>
    decreases s.len(),
{
    if s.len() >= 7 && s.take(7) == bearer_prefix() {
        strip_bearer(s.skip(7))
    } else {
        s
    }
}

pub open spec fn invalid_credentials_message() -> Seq<char> {
    "Invalid email or password"@
}

/// Whether argon2 accepts `password` against the PHC string `phc`.
pub uninterp spec fn argon2_accepts(password: Seq<char>, phc: Seq<char>) -> bool;

/// Relies on argon2's `PasswordHash::new` and `PasswordVerifier::verify_password`
/// (with `Argon2::default()`): whether the password matches the stored hash,
/// which depends on the two texts alone; an empty hash never parses.
#[verifier::external_body]
fn argon2_verify(password: &str, phc: &str) -> (r: bool)
    ensures
        r == argon2_accepts(password@, phc@),
        phc@.len() == 0 ==> !r,
{
    match argon2::PasswordHash::new(phc) {
        Ok(parsed) => argon2::Argon2::default().verify_password(password.as_bytes(), &parsed).is_ok(),
        Err(_) => false,
    }
}

/// Relies on argon2's `PasswordHasher::hash_password` (with `Argon2::default()`)
/// and a salt drawn from the operating system's generator: the PHC string of
/// the hash, or `None` where hashing failed. The salt is random, so nothing
/// is known of the text.
#[verifier::external_body]
fn argon2_hash(password: &str) -> (r: Option<String>) {
    let salt = argon2::password_hash::SaltString::generate(
        &mut argon2::password_hash::rand_core::OsRng,
    );
    match argon2::Argon2::default().hash_password(password.as_bytes(), &salt) {
        Ok(h) => Some(h.to_string()),
        Err(_) => None,
    }
}

fn starts_with_bearer(s: &str) -> (r: bool)
    ensures
        r == (s@.len() >= 7 && s@.take(7) == bearer_prefix()),
{
    let prefix = "Bearer ";
    proof {
        reveal_strlit("Bearer ");
    }
    let n = s.unicode_len();
    if n < 7 {
        return false;
    }
    let mut i: usize = 0;
    while i < 7
        invariant
            n == s@.len(),
            n >= 7,
            prefix@ == bearer_prefix(),
            prefix@.len() == 7,
            0 <= i <= 7,
            forall|k: int| 0 <= k < i ==> s@[k] == prefix@[k],
        decreases 7 - i,
    {
        if s.get_char(i) != prefix.get_char(i) {
            assert(s@.take(7)[i as int] != bearer_prefix()[i as int]);
            return false;
        }
        i = i + 1;
    }
    assert(s@.take(7) =~= bearer_prefix());
    true
}

/// The token carried by an `Authorization` header value: the text after the
/// bearer prefix (every leading copy of it removed), trimmed.
pub fn bearer_token(header: Option<&str>) -> (r: Result<String, AppError>)
    ensures
        match header {
            None => (r matches Err(e) && e.is_error(ErrorKind::Authentication, "Missing token"@)),
            Some(h) => if h@.len() >= 7 && h@.take(7) == bearer_prefix() {
                (r matches Ok(t) && trimmed(strip_bearer(h@), t@))
            } else {
                (r matches Err(e) && e.is_error(ErrorKind::Authentication, "Invalid token format"@))
            },
        },
{
    let h = match header {
        Some(h) => h,
        None => {
            return Err(AppError::Authentication(String::from_str("Missing token")));
        },
    };
    if !starts_with_bearer(h) {
        return Err(AppError::Authentication(String::from_str("Invalid token format")));
    }
    let mut rest = h;
    while starts_with_bearer(rest)
        invariant
            strip_bearer(rest@) == strip_bearer(h@),
        decreases rest@.len(),
    {
        let n = rest.unicode_len();
        rest = rest.substring_char(7, n);
    }
    let token = trim(rest);
    Ok(String::from_str(token))
}

/// The claims of a token for `user_id` issued at `now_secs`, or `None` where
/// the expiry is before the epoch or does not fit in `i64` and `usize`.
pub fn token_claims(user_id: i64, now_secs: i64) -> (r: Option<Claims>)
    ensures
        r is Some <==> 0 <= now_secs + TOKEN_LIFETIME_SECS <= i64::MAX && now_secs
            + TOKEN_LIFETIME_SECS <= usize::MAX,
        r matches Some(c) ==> c.sub == user_id && c.exp == now_secs + TOKEN_LIFETIME_SECS,
{
    if now_secs > i64::MAX - TOKEN_LIFETIME_SECS || now_secs < -TOKEN_LIFETIME_SECS {
        return None;
    }
    let exp = now_secs + TOKEN_LIFETIME_SECS;
    if exp as u64 > usize::MAX as u64 {
        return None;
    }
    Some(Claims { sub: user_id, exp: exp as usize })
}

/// The claims of a token for `user_id` issued now.
pub fn issue_claims(user_id: i64) -> (r: Option<Claims>)
    ensures
        r matches Some(c) ==> c.sub == user_id,
{
    let now = current_time();
    token_claims(user_id, now / 1_000_000)
}

/// The form in which an email address is stored and looked up: lower case.
pub fn normalize_email(email: &str) -> (r: String)
    ensures
        r@ == lower_of(email@),
{
    lowercase(email)
}

/// The outcome of a login once the stored account has been looked up and the
/// password checked against it.
pub fn login_result(user_id: Option<i64>, password_ok: bool) -> (r: Result<i64, AppError>)
    ensures
        match user_id {
            Some(id) => if password_ok {
                r == Ok::<i64, AppError>(id)
            } else {
                (r matches Err(e) && e.is_error(ErrorKind::Authentication, invalid_credentials_message()))
            },
            None => (r matches Err(e) && e.is_error(
                ErrorKind::Authentication,
                invalid_credentials_message(),
            )),
        },
{
    match user_id {
        Some(id) => {
            if password_ok {
                return Ok(id);
            }
        },
        None => {},
    }
    Err(AppError::Authentication(String::from_str("Invalid email or password")))
}

/// Checks a password against the stored account, if there is one: the
/// caller's user id when argon2 accepts the password.
pub fn authenticate(stored: Option<(i64, String)>, password: &str) -> (r: Result<i64, AppError>)
    ensures
        match stored {
            Some((id, h)) => if argon2_accepts(password@, h@) {
                r == Ok::<i64, AppError>(id)
            } else {
                (r matches Err(e) && e.is_error(ErrorKind::Authentication, invalid_credentials_message()))
            },
            None => (r matches Err(e) && e.is_error(
                ErrorKind::Authentication,
                invalid_credentials_message(),
            )),
        },
{
    match stored {
        Some((id, hash)) => {
            let ok = argon2_verify(password, hash.as_str());
            login_result(Some(id), ok)
        },
        None => login_result(None, false),
    }
}

/// The user record to store for a registration: the email in lower case and
/// the argon2 hash of the password under a fresh random salt.
pub fn new_registration(email: String, password: &str) -> (r: Result<CreateUser, AppError>)
    ensures
        r matches Ok(u) ==> u.email@ == lower_of(email@),
        r matches Err(e) ==> e.kind_of() == ErrorKind::Internal,
{
    match argon2_hash(password) {
        Some(h) => Ok(CreateUser::new(email, h)),
        None => Err(AppError::Internal(String::from_str("Password hashing failed"))),
    }
}

} // verus!
