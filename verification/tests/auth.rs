use my_file_cloud_server::api::{ApiErrorKind, ApiErrorMessage, DeletePathErrorKind};
use my_file_cloud_server::auth::{
    failed_cookie_removals, session_end_removals,
    build_token_cookies, process_token_cookie, process_token_cookies, token_error_response,
    AuthenticatedUser, JwtErrorKind, JwtFailure, SameSite, TokenCookieError, TokenCookieErrorKind,
};
use my_file_cloud_server::id::{SessionId, UserId};
use my_file_cloud_server::jwt::{default_token_lifetimes, AccessTokenClaims, RefreshTokenClaims};
use my_file_cloud_server::util::{hash, verify_hash};

fn failure(kind: JwtErrorKind) -> JwtFailure {
    JwtFailure { kind, message: "bad token".to_string() }
}

#[test]
fn from_request_parts() {
    let user_id = UserId::new();
    let claims = AccessTokenClaims::issue(15 * 60, &user_id).expect("Failed to create access token");
    assert_eq!(claims.exp - claims.iat, 15 * 60);
    let access = process_token_cookie(Some(Ok(claims)));
    let result = AuthenticatedUser::from_access_token(access);
    assert!(result.is_ok(), "expected Ok but got Err");
    assert!(result.ok().unwrap().user_id.same_as(&user_id));
}

#[test]
fn claims_expire_after_their_lifetime() {
    let uid = UserId::from_value("u".to_string());
    let sid = SessionId::from_value("s".to_string());
    let a = AccessTokenClaims::at(1_000, 900, &uid).unwrap();
    assert_eq!((a.iat, a.exp), (1_000, 1_900));
    assert_eq!(a.user_id.value(), "u");
    let r = RefreshTokenClaims::at(1_000, 604_800, &uid, &sid).unwrap();
    assert_eq!((r.iat, r.exp), (1_000, 605_800));
    assert_eq!(r.session_id.value(), "s");
    assert!(AccessTokenClaims::at(0, i64::MAX, &uid).is_none());
    assert!(RefreshTokenClaims::issue(i64::MAX / 1000 + 1, &uid, &sid).is_none());
    assert_eq!(default_token_lifetimes(), (900, 604_800));
    let r = RefreshTokenClaims::issue(60, &uid, &sid).unwrap();
    assert_eq!(r.exp - r.iat, 60);
}

#[test]
fn token_cookies_are_http_only_and_lax() {
    let (a, r) = build_token_cookies("acc".to_string(), "ref".to_string());
    assert_eq!((a.name.as_str(), a.value.as_str(), a.path.as_str()), ("access_token", "acc", "/"));
    assert_eq!((r.name.as_str(), r.value.as_str(), r.path.as_str()), ("refresh_token", "ref", "/auth"));
    for c in [&a, &r] {
        assert!(c.http_only);
        assert!(!c.secure);
        assert_eq!(c.same_site, SameSite::Lax);
    }
}

#[test]
fn decoding_failures_are_classed() {
    for k in [JwtErrorKind::MissingRequiredClaim, JwtErrorKind::InvalidClaimFormat, JwtErrorKind::ExpiredSignature, JwtErrorKind::InvalidIssuer, JwtErrorKind::InvalidAudience, JwtErrorKind::InvalidSubject, JwtErrorKind::ImmatureSignature, JwtErrorKind::InvalidAlgorithm, JwtErrorKind::MissingAlgorithm] {
        assert_eq!(TokenCookieErrorKind::from_jwt_error(k), TokenCookieErrorKind::ValidationError);
    }
    assert_eq!(TokenCookieErrorKind::from_jwt_error(JwtErrorKind::InvalidEcdsaKey), TokenCookieErrorKind::InvalidInputSecret);
    for k in [JwtErrorKind::InvalidToken, JwtErrorKind::InvalidSignature, JwtErrorKind::Base64, JwtErrorKind::Json, JwtErrorKind::Utf8, JwtErrorKind::InvalidRsaKey, JwtErrorKind::Unknown] {
        assert_eq!(TokenCookieErrorKind::from_jwt_error(k), TokenCookieErrorKind::InvalidToken);
    }
}

#[test]
fn token_cookies_are_processed() {
    assert!(matches!(process_token_cookie::<u8>(None), Ok(None)));
    assert!(matches!(process_token_cookie(Some(Ok(7u8))), Ok(Some(7))));
    match process_token_cookie::<u8>(Some(Err(failure(JwtErrorKind::ExpiredSignature)))) {
        Err(e) => {
            assert_eq!(e.kind, TokenCookieErrorKind::ValidationError);
            assert_eq!(e.message, "bad token");
        }
        _ => panic!(),
    }
    let (a, r) = process_token_cookies(None, Some(Err(failure(JwtErrorKind::InvalidSignature))));
    assert!(matches!(a, Ok(None)));
    assert!(matches!(r, Err(TokenCookieError { kind: TokenCookieErrorKind::InvalidToken, .. })));
}

#[test]
fn token_failures_are_answered() {
    let e = token_error_response(TokenCookieError { kind: TokenCookieErrorKind::InvalidInputSecret, message: "x".to_string() });
    assert_eq!(e.kind, ApiErrorKind::InternalServerError);
    assert!(matches!(e.message, ApiErrorMessage::InternalServerError));
    let e = token_error_response(TokenCookieError { kind: TokenCookieErrorKind::ValidationError, message: "expired".to_string() });
    assert_eq!(e.kind, ApiErrorKind::Unauthorized);
    assert!(matches!(e.message, ApiErrorMessage::Custom(ref m) if m == "expired"));
    let e = token_error_response(TokenCookieError { kind: TokenCookieErrorKind::InvalidToken, message: "junk".to_string() });
    assert_eq!(e.kind, ApiErrorKind::BadRequest);
    match AuthenticatedUser::from_access_token(Ok(None)) {
        Err(e) => {
            assert_eq!(e.kind, ApiErrorKind::BadRequest);
            assert!(matches!(e.message, ApiErrorMessage::Custom(ref m) if m == "Missing access token"));
        }
        Ok(_) => panic!(),
    }
    assert_eq!(ApiErrorKind::Unauthorized.status_code(), 401);
    assert_eq!(ApiErrorKind::Conflict.status_code(), 409);
    assert_eq!(ApiErrorKind::InternalServerError.status_code(), 500);
    assert_eq!(DeletePathErrorKind::NotFound.status_code(), 404);
    assert_eq!(DeletePathErrorKind::BadRequest.status_code(), 400);
}

#[test]
fn a_hash_verifies_its_own_value_only() {
    let h = hash("correct horse").unwrap();
    assert_ne!(h, "correct horse");
    assert!(h.starts_with("$argon2"));
    assert!(verify_hash("correct horse", &h).is_ok());
    assert!(verify_hash("wrong horse", &h).is_err());
    assert!(verify_hash("correct horse", "correct horse").is_err());
    let h2 = hash("correct horse").unwrap();
    assert_ne!(h, h2);
}

#[test]
fn failing_token_cookies_are_dropped() {
    let ok: Result<Option<u8>, TokenCookieError> = Ok(Some(1));
    let bad: Result<Option<u8>, TokenCookieError> =
        Err(TokenCookieError { kind: TokenCookieErrorKind::InvalidToken, message: "x".to_string() });
    let r = failed_cookie_removals(&bad, &ok);
    assert_eq!(r.access.unwrap().name, "access_token");
    assert!(r.refresh.is_none());
    let r = failed_cookie_removals(&ok, &bad);
    assert!(r.access.is_none());
    assert_eq!(r.refresh.unwrap().path, "/auth");
    let r = session_end_removals(&Ok(None));
    assert!(r.access.is_none() && r.refresh.is_some());
}

#[test]
fn chrono_range_bounds_the_expiry() {
    let uid = UserId::from_value("u".to_string());
    assert!(AccessTokenClaims::at(8_210_266_876_799, 0, &uid).is_some());
    assert!(AccessTokenClaims::at(8_210_266_876_799, 1, &uid).is_none());
    assert!(AccessTokenClaims::at(-8_334_601_228_800, 0, &uid).is_some());
    assert!(AccessTokenClaims::at(-8_334_601_228_800, -1, &uid).is_none());
    assert!(AccessTokenClaims::at(-8_334_601_228_801, 1, &uid).is_none());
    assert!(AccessTokenClaims::issue(-60, &uid).is_some());
    let id = UserId::new();
    let v = id.value();
    assert_eq!(v.len(), 36);
    for (i, c) in v.chars().enumerate() {
        if [8, 13, 18, 23].contains(&i) {
            assert_eq!(c, '-');
        } else {
            assert!(c.is_ascii_hexdigit() && !c.is_ascii_uppercase());
        }
    }
}

#[test]
fn hashes_are_phc_strings_and_plain_text_is_no_hash() {
    let h = hash("secret").unwrap();
    assert!(h.starts_with('$'));
    assert!(h.starts_with("$argon2id$"));
    assert!(verify_hash("secret", "").is_err());
    assert!(verify_hash("secret", "secret").is_err());
    assert!(verify_hash("", "argon2id$v=19").is_err());
}
