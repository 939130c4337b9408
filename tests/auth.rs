use multisig::auth::{authenticate, bearer_token, login_result, new_registration, token_claims};
use multisig::{Claims, ErrorKind};

#[test]
fn bearer_header_parsing() {
    assert_eq!(bearer_token(Some("Bearer abc.def")).unwrap(), "abc.def");
    assert_eq!(bearer_token(Some("Bearer   tok  ")).unwrap(), "tok");
    assert_eq!(bearer_token(Some("Bearer Bearer tok")).unwrap(), "tok");
    assert_eq!(bearer_token(Some("Bearer ")).unwrap(), "");
    let e = bearer_token(Some("Basic abc")).unwrap_err();
    assert_eq!(e.kind(), ErrorKind::Authentication);
    assert_eq!(e.detail_str(), "Invalid token format");
    let e = bearer_token(Some("bearer abc")).unwrap_err();
    assert_eq!(e.detail_str(), "Invalid token format");
    let e = bearer_token(None).unwrap_err();
    assert_eq!(e.detail_str(), "Missing token");
}

#[test]
fn claims_expire_a_day_later() {
    assert_eq!(token_claims(7, 1_700_000_000), Some(Claims { sub: 7, exp: 1_700_086_400 }));
    assert_eq!(token_claims(7, -86_400), Some(Claims { sub: 7, exp: 0 }));
    assert_eq!(token_claims(7, -86_401), None);
    assert_eq!(token_claims(7, i64::MAX), None);
}

#[test]
fn login_outcomes() {
    assert_eq!(login_result(Some(3), true).unwrap(), 3);
    let e = login_result(Some(3), false).unwrap_err();
    assert_eq!(e.kind(), ErrorKind::Authentication);
    assert_eq!(e.detail_str(), "Invalid email or password");
    assert_eq!(login_result(None, true).unwrap_err().detail_str(), "Invalid email or password");
}

#[test]
fn registered_password_authenticates() {
    let user = new_registration("Bob@Mail.org".to_string(), "s3cret").unwrap();
    assert_eq!(user.email, "bob@mail.org");
    assert!(user.password_hash.starts_with("$argon2"));
    let stored = Some((12, user.password_hash.clone()));
    assert_eq!(authenticate(stored, "s3cret").unwrap(), 12);
    let stored = Some((12, user.password_hash.clone()));
    assert_eq!(authenticate(stored, "wrong").unwrap_err().kind(), ErrorKind::Authentication);
    assert_eq!(authenticate(None, "s3cret").unwrap_err().kind(), ErrorKind::Authentication);
    assert!(authenticate(Some((1, String::new())), "").is_err());
    assert!(authenticate(Some((1, "not a hash".to_string())), "x").is_err());
}
