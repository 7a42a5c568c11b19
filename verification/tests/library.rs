use webby::auth::{hash_password, issue_claims, require_role, sign_token, verify_password, verify_token, TOKEN_LEEWAY_SECS, AuthBody, Claims, TOKEN_LIFETIME_SECS};
use webby::decimal::{parse_u64, u64_to_decimal};
use webby::errors::{ApiResponse, AppError, AuthError};
use webby::models::{Pagination, PageWindow, Role};

#[test]
fn decimal_rendering() {
    assert_eq!(u64_to_decimal(0), "0");
    assert_eq!(u64_to_decimal(7), "7");
    assert_eq!(u64_to_decimal(1200), "1200");
    assert_eq!(u64_to_decimal(u64::MAX), "18446744073709551615");
}

#[test]
fn decimal_parsing_matches_std() {
    let cases = [
        "0", "1", "+5", "-1", "", "+", "-", "0012", "12a", " 1", "1 ",
        "18446744073709551615", "18446744073709551616", "99999999999999999999", "+18446744073709551615",
    ];
    for case in cases {
        assert_eq!(parse_u64(case), case.parse::<u64>().ok(), "case {:?}", case);
    }
}

#[test]
fn decimal_round_trip() {
    for n in [0u64, 1, 9, 10, 99, 100, 4096, 1_000_000_007, u64::MAX - 1, u64::MAX] {
        assert_eq!(parse_u64(&u64_to_decimal(n)), Some(n));
    }
}

#[test]
fn pagination_defaults_and_offsets() {
    let none = Pagination { page: None, per_page: None };
    assert_eq!(none.page_or_default(), 1);
    assert_eq!(none.per_page_or_default(), 20);
    assert_eq!(none.window(), PageWindow { limit: 20, offset: 0 });
    assert_eq!(Pagination { page: Some(0), per_page: Some(10) }.window(), PageWindow { limit: 10, offset: 0 });
    assert_eq!(Pagination { page: Some(1), per_page: Some(10) }.window(), PageWindow { limit: 10, offset: 0 });
    assert_eq!(Pagination { page: Some(3), per_page: Some(10) }.window(), PageWindow { limit: 10, offset: 20 });
    assert_eq!(Pagination { page: Some(4), per_page: None }.window(), PageWindow { limit: 20, offset: 60 });
}

#[test]
fn consecutive_pages_are_adjacent() {
    for page in 1u32..6 {
        let a = Pagination { page: Some(page), per_page: Some(15) }.window();
        let b = Pagination { page: Some(page + 1), per_page: Some(15) }.window();
        assert_eq!(a.offset + a.limit, b.offset);
    }
}

#[test]
fn password_round_trip() {
    let hash = hash_password("hunter42").expect("hashing succeeds");
    assert!(hash.starts_with("$argon2id$"));
    assert_eq!(verify_password("hunter42", &hash), Ok(true));
    assert_eq!(verify_password("hunter43", &hash), Err(AuthError::PasswordHashDontMatch));
    assert_eq!(verify_password("hunter42", ""), Err(AuthError::InvalidHashFormat));
    assert_eq!(verify_password("hunter42", "plain text"), Err(AuthError::InvalidHashFormat));
}

#[test]
fn salts_differ() {
    let a = hash_password("same").unwrap();
    let b = hash_password("same").unwrap();
    assert_ne!(a, b);
    assert_eq!(verify_password("same", &a), Ok(true));
    assert_eq!(verify_password("same", &b), Ok(true));
}

#[test]
fn claims_expire_one_day_later() {
    let c = issue_claims("5".to_string(), "Akatsuki".to_string(), Role::Owner, 1_700_000_000);
    assert_eq!(c.sub, "5");
    assert_eq!(c.company, "Akatsuki");
    assert_eq!(c.role, Role::Owner);
    assert_eq!(c.exp, 1_700_000_000 + TOKEN_LIFETIME_SECS);
    assert_eq!(TOKEN_LIFETIME_SECS, 24 * 60 * 60);
    assert_eq!(c.describe(), "ID: 5\nCompany: Akatsuki");
}

#[test]
fn role_gate() {
    let admin = Claims { sub: "1".to_string(), company: String::new(), role: Role::Admin, exp: 0 };
    let owner = Claims { role: Role::Owner, ..admin.clone() };
    assert!(require_role(Role::Admin, &admin).is_ok());
    match require_role(Role::Admin, &owner) {
        Err(AppError::Forbidden(text)) => assert_eq!(text, "Forbidden"),
        _ => panic!("only the required role passes"),
    }
    assert_eq!(Role::default(), Role::User);
}

#[test]
fn bearer_body() {
    let body = AuthBody::new("token".to_string());
    assert_eq!(body.access_token, "token");
    assert_eq!(body.token_type, "Bearer");
}

#[test]
fn status_codes() {
    assert_eq!(AuthError::WrongCredentials.status(), 401);
    assert_eq!(AuthError::WrongCredentials.message(), "Wrong credentials");
    assert_eq!(AuthError::TokenCreation.status(), 500);
    assert_eq!(AuthError::TokenCreation.message(), "Token creation error");
    assert_eq!(AuthError::InvalidToken.status(), 400);
    assert_eq!(AuthError::InvalidToken.message(), "Invalid token");
    assert_eq!(AuthError::InvalidHashFormat.status(), 500);
    assert_eq!(AuthError::PasswordHashDontMatch.status(), 401);
    assert_eq!(AppError::EmailAlreadyExist("a".to_string()).status(), 400);
    assert_eq!(AppError::InvalidInput("b".to_string()).status(), 422);
    assert_eq!(AppError::UserNotFound("c".to_string()).status(), 404);
    assert_eq!(AppError::InternalDbError("d".to_string()).status(), 500);
    assert_eq!(AppError::Forbidden("e".to_string()).status(), 403);
    assert_eq!(AppError::Forbidden("e".to_string()).message(), "e");
    assert_eq!(ApiResponse::Message(418, String::new()).status(), 418);
    assert_eq!(ApiResponse::Json(Vec::new()).status(), 200);
}

#[test]
fn signed_token_carries_the_claims() {
    let now = std::time::SystemTime::now()
        .duration_since(std::time::UNIX_EPOCH)
        .unwrap()
        .as_secs();
    let secret = b"test_super_secret_key_123";
    let token = sign_token("7".to_string(), "Akatsuki".to_string(), Role::Admin, now, secret).unwrap();
    let data = jsonwebtoken::decode::<serde_json::Value>(
        &token,
        &jsonwebtoken::DecodingKey::from_secret(secret),
        &jsonwebtoken::Validation::default(),
    )
    .expect("the token verifies under its secret");
    assert_eq!(data.claims["sub"], "7");
    assert_eq!(data.claims["company"], "Akatsuki");
    assert_eq!(data.claims["role"], "Admin");
    assert_eq!(data.claims["exp"], now + TOKEN_LIFETIME_SECS);
    // The same inputs give the same token; another secret does not verify it.
    let again = sign_token("7".to_string(), "Akatsuki".to_string(), Role::Admin, now, secret).unwrap();
    assert_eq!(token, again);
    assert!(jsonwebtoken::decode::<serde_json::Value>(
        &token,
        &jsonwebtoken::DecodingKey::from_secret(b"other"),
        &jsonwebtoken::Validation::default(),
    )
    .is_err());
}

#[test]
fn role_names() {
    assert_eq!(Role::User.name(), "User");
    assert_eq!(Role::Admin.name(), "Admin");
    assert_eq!(Role::Owner.name(), "Owner");
}

#[test]
fn signed_token_keeps_the_claims_field_order() {
    let secret = b"test_super_secret_key_123";
    let token = sign_token("7".to_string(), "Akatsuki".to_string(), Role::User, 1_700_000_000, secret).unwrap();
    let payload: serde_json::Value = serde_json::from_str(
        r#"{"sub":"7","company":"Akatsuki","role":"User","exp":1700086400}"#,
    )
    .unwrap();
    let expected = jsonwebtoken::encode(
        &jsonwebtoken::Header::default(),
        &payload,
        &jsonwebtoken::EncodingKey::from_secret(secret),
    )
    .unwrap();
    assert_eq!(token, expected);
}

#[test]
fn issued_tokens_verify_back() {
    let secret = b"test_super_secret_key_123";
    let issued = 1_700_000_000u64;
    let token = sign_token("7".to_string(), "Akatsuki".to_string(), Role::Owner, issued, secret).unwrap();
    let exp = issued + TOKEN_LIFETIME_SECS;

    let claims = verify_token(&token, secret, issued).expect("a fresh token verifies");
    assert_eq!(claims.sub, "7");
    assert_eq!(claims.company, "Akatsuki");
    assert_eq!(claims.role, Role::Owner);
    assert_eq!(claims.exp, exp);

    // Still accepted within the leeway after expiry, refused after it.
    assert!(verify_token(&token, secret, exp + TOKEN_LEEWAY_SECS).is_ok());
    assert_eq!(verify_token(&token, secret, exp + TOKEN_LEEWAY_SECS + 1).err(), Some(AuthError::InvalidToken));

    // Another secret, an altered token and garbage are refused.
    assert_eq!(verify_token(&token, b"other secret", issued).err(), Some(AuthError::InvalidToken));
    let mut altered = token.clone();
    altered.push('x');
    assert_eq!(verify_token(&altered, secret, issued).err(), Some(AuthError::InvalidToken));
    assert_eq!(verify_token("not a token", secret, issued).err(), Some(AuthError::InvalidToken));
}

#[test]
fn tokens_with_unknown_roles_or_missing_fields_are_refused() {
    let secret = b"test_super_secret_key_123";
    let key = jsonwebtoken::EncodingKey::from_secret(secret);
    let header = jsonwebtoken::Header::default();
    let far = 4_000_000_000u64;

    let unknown_role: serde_json::Value = serde_json::from_str(
        r#"{"sub":"1","company":"Akatsuki","role":"Root","exp":4000000000}"#,
    )
    .unwrap();
    let t = jsonwebtoken::encode(&header, &unknown_role, &key).unwrap();
    assert_eq!(verify_token(&t, secret, far - 10).err(), Some(AuthError::InvalidToken));

    let no_company: serde_json::Value =
        serde_json::from_str(r#"{"sub":"1","role":"User","exp":4000000000}"#).unwrap();
    let t = jsonwebtoken::encode(&header, &no_company, &key).unwrap();
    assert_eq!(verify_token(&t, secret, far - 10).err(), Some(AuthError::InvalidToken));

    let good: serde_json::Value = serde_json::from_str(
        r#"{"sub":"1","company":"Akatsuki","role":"User","exp":4000000000}"#,
    )
    .unwrap();
    let t = jsonwebtoken::encode(&header, &good, &key).unwrap();
    assert_eq!(verify_token(&t, secret, far - 10).unwrap().role, Role::User);
}
