use my_file_cloud_server::api::{ApiErrorKind, ApiErrorMessage, DeletePathErrorKind};
use my_file_cloud_server::database::DatabaseError;
use my_file_cloud_server::id::{SessionId, UserId};
use my_file_cloud_server::jwt::{AccessTokenClaims, RefreshTokenClaims};
use my_file_cloud_server::auth::{JwtErrorKind, JwtFailure, TokenCookieError, TokenCookieErrorKind};
use my_file_cloud_server::model::{Session, User};
use my_file_cloud_server::routes::{
    authorize_session, content_disposition, create_directory_target, dashboard_response, delete_response,
    download_error_response, download_file_name, download_plan, login_session, login_token_claims, login_user,
    logout_finish, refresh_token_claims,
    register_directory, register_password, register_stored, requested_path, required_refresh_claims,
    logout_request_claims, refresh_request_claims,
    refresh_session, storage_error_response, token_pair_cookies, upload_create_error, upload_directory,
    upload_file_path, upload_read_error, DownloadPlan,
};
use my_file_cloud_server::storage::io_error::{IoError, IoErrorKind};
use my_file_cloud_server::storage::storage_content::FileKind;
use my_file_cloud_server::storage::{PathKind, Storage};
use my_file_cloud_server::util::hash;

fn custom(m: &ApiErrorMessage) -> &str {
    match m {
        ApiErrorMessage::Custom(t) => t.as_str(),
        _ => panic!("expected a text message"),
    }
}

fn db_err() -> DatabaseError {
    DatabaseError::Other("down".to_string())
}

fn user_with_password(password: &str) -> User {
    User { id: UserId::from_value("u1".to_string()), name: "alice".to_string(), password: hash(password).unwrap() }
}

fn storage() -> Storage {
    Storage::new("/srv".to_string(), None, PathKind::Directory).ok().unwrap()
}

#[test]
fn login_checks_name_and_password() {
    let e = login_user(Err(db_err()), "pw").err().unwrap();
    assert_eq!(e.kind, ApiErrorKind::InternalServerError);
    let e = login_user(Ok(None), "pw").err().unwrap();
    assert_eq!(e.kind, ApiErrorKind::Unauthorized);
    assert_eq!(custom(&e.message), "Invalid username or password");
    let e = login_user(Ok(Some(user_with_password("pw"))), "other").err().unwrap();
    assert_eq!(e.kind, ApiErrorKind::Unauthorized);
    assert_eq!(custom(&e.message), "Invalid username or password");
    let u = login_user(Ok(Some(user_with_password("pw"))), "pw").ok().unwrap();
    assert_eq!(u.name, "alice");
}

#[test]
fn login_opens_a_session_holding_the_refresh_hash() {
    let u = user_with_password("pw");
    let sid = SessionId::from_value("s1".to_string());
    let (s, (a, r)) = login_session(u, sid, Ok(("acc".to_string(), "ref".to_string()))).ok().unwrap();
    assert_eq!(s.id.value(), "s1");
    assert_eq!(s.user_id.value(), "u1");
    assert_ne!(s.refresh_token, "ref");
    assert_eq!((a.as_str(), r.as_str()), ("acc", "ref"));
    assert!(authorize_session(Ok(Some(s)), "ref", &Ok(None)).is_ok());
    let failed = JwtFailure { kind: JwtErrorKind::Signing, message: "x".to_string() };
    let e = login_session(user_with_password("pw"), SessionId::from_value("s".to_string()), Err(failed)).err().unwrap();
    assert_eq!(e.kind, ApiErrorKind::InternalServerError);
    let (c1, c2) = token_pair_cookies(Ok(()), ("a".to_string(), "r".to_string())).ok().unwrap();
    assert_eq!((c1.name.as_str(), c2.name.as_str()), ("access_token", "refresh_token"));
    assert!(token_pair_cookies(Err(db_err()), ("a".to_string(), "r".to_string())).is_err());
}

#[test]
fn sessions_are_authorized_by_their_refresh_token() {
    let r = authorize_session(Err(db_err()), "t", &Ok(None)).err().unwrap();
    assert_eq!(r.error.kind, ApiErrorKind::InternalServerError);
    assert!(r.removals.access.is_none() && r.removals.refresh.is_none());
    let access = Ok(Some(AccessTokenClaims::at(0, 900, &UserId::from_value("u".to_string())).unwrap()));
    let r = authorize_session(Ok(None), "t", &access).err().unwrap();
    assert_eq!(r.error.kind, ApiErrorKind::Unauthorized);
    assert_eq!(custom(&r.error.message), "Invalid session");
    let refresh = r.removals.refresh.unwrap();
    assert_eq!((refresh.name.as_str(), refresh.path.as_str()), ("refresh_token", "/auth"));
    let acc = r.removals.access.unwrap();
    assert_eq!((acc.name.as_str(), acc.path.as_str()), ("access_token", "/"));
    let r = authorize_session(Ok(None), "t", &Ok(None)).err().unwrap();
    assert!(r.removals.access.is_none() && r.removals.refresh.is_some());
    let s = Session {
        id: SessionId::from_value("s".to_string()),
        user_id: UserId::from_value("u".to_string()),
        refresh_token: hash("token-1").unwrap(),
    };
    let r = authorize_session(Ok(Some(s)), "token-2", &Ok(None)).err().unwrap();
    assert_eq!(custom(&r.error.message), "Invalid refresh token");
    assert!(r.removals.access.is_none() && r.removals.refresh.is_none());
}

#[test]
fn refresh_rotates_the_stored_hash() {
    let s = Session {
        id: SessionId::from_value("s".to_string()),
        user_id: UserId::from_value("u".to_string()),
        refresh_token: hash("old").unwrap(),
    };
    let (s2, _) = refresh_session(s, Ok(("a".to_string(), "new".to_string()))).ok().unwrap();
    assert_eq!(s2.id.value(), "s");
    let s2_copy = s2.duplicate();
    assert!(authorize_session(Ok(Some(s2)), "new", &Ok(None)).is_ok());
    assert!(authorize_session(Ok(Some(s2_copy)), "old", &Ok(None)).is_err());
}

#[test]
fn refresh_token_is_required() {
    let e = required_refresh_claims(Ok(None), "Refresh token is required").err().unwrap();
    assert_eq!(e.kind, ApiErrorKind::BadRequest);
    assert_eq!(custom(&e.message), "Refresh token is required");
    let e = required_refresh_claims(Err(TokenCookieError { kind: TokenCookieErrorKind::ValidationError, message: "expired".to_string() }), "x").err().unwrap();
    assert_eq!(e.kind, ApiErrorKind::Unauthorized);
    let claims = RefreshTokenClaims::at(0, 10, &UserId::from_value("u".to_string()), &SessionId::from_value("s".to_string())).unwrap();
    assert_eq!(required_refresh_claims(Ok(Some(claims)), "x").ok().unwrap().exp, 10);
    let removals = logout_finish(Ok(()), &Ok(None)).ok().unwrap();
    assert!(removals.access.is_none());
    assert_eq!(removals.refresh.unwrap().name, "refresh_token");
    let bad = Err(TokenCookieError { kind: TokenCookieErrorKind::InvalidToken, message: "x".to_string() });
    assert!(logout_finish(Ok(()), &bad).ok().unwrap().access.is_none());
    assert_eq!(logout_finish(Err(db_err()), &Ok(None)).err().unwrap().kind, ApiErrorKind::InternalServerError);
}

#[test]
fn register_needs_a_free_name() {
    let e = register_password(Ok(Some(user_with_password("x"))), "pw").err().unwrap();
    assert_eq!(e.kind, ApiErrorKind::Conflict);
    assert_eq!(custom(&e.message), "Username already exists");
    assert_eq!(register_password(Err(db_err()), "pw").err().unwrap().kind, ApiErrorKind::InternalServerError);
    let h = register_password(Ok(None), "pw").ok().unwrap();
    let u = User::new("bob".to_string(), h);
    assert!(login_user(Ok(Some(u)), "pw").is_ok());
    let e = register_stored(Err(DatabaseError::UniqueViolation("dup".to_string()))).err().unwrap();
    assert_eq!(e.kind, ApiErrorKind::Conflict);
    let e = register_stored(Err(DatabaseError::CheckViolation("c".to_string()))).err().unwrap();
    assert_eq!(e.kind, ApiErrorKind::InternalServerError);
    assert_eq!(custom(&e.message), "CheckViolation: c");
    assert!(register_stored(Ok(())).is_ok());
    let e = register_directory(Err(IoError { kind: IoErrorKind::AlreadyExists, message: "exists".to_string() })).err().unwrap();
    assert_eq!(e.kind, ApiErrorKind::BadRequest);
    assert_eq!(custom(&e.message), "exists");
}

#[test]
fn dashboard_shows_the_name() {
    assert_eq!(dashboard_response(Ok(Some(user_with_password("x")))).ok().unwrap().name, "alice");
    let e = dashboard_response(Ok(None)).err().unwrap();
    assert_eq!(e.kind, ApiErrorKind::NotFound);
    assert!(matches!(e.message, ApiErrorMessage::InternalServerError));
    assert_eq!(dashboard_response(Err(db_err())).err().unwrap().kind, ApiErrorKind::InternalServerError);
}

#[test]
fn storage_failures_are_answered() {
    let e = storage_error_response(IoError { kind: IoErrorKind::NotFound, message: "x".to_string() });
    assert_eq!(e.kind, ApiErrorKind::NotFound);
    assert!(matches!(e.message, ApiErrorMessage::FileNotFound));
    let e = storage_error_response(IoError { kind: IoErrorKind::PermissionDenied, message: "denied".to_string() });
    assert_eq!(e.kind, ApiErrorKind::BadRequest);
    assert_eq!(custom(&e.message), "denied");
    let e = delete_response(Err(IoError { kind: IoErrorKind::NotFound, message: "x".to_string() })).err().unwrap();
    assert_eq!(e.kind, DeletePathErrorKind::NotFound);
    let e = delete_response(Err(IoError { kind: IoErrorKind::Other, message: "busy".to_string() })).err().unwrap();
    assert_eq!(e.kind, DeletePathErrorKind::BadRequest);
    assert!(delete_response(Ok(())).is_ok());
    assert_eq!(requested_path(None), "");
    assert_eq!(requested_path(Some("a/b".to_string())), "a/b");
}

#[test]
fn create_directory_refuses_indirect_paths() {
    let user = storage().with_user(UserId::from_value("u1".to_string()));
    let e = create_directory_target(&user, &"../u2".to_string()).err().unwrap();
    assert_eq!(e.kind, ApiErrorKind::BadRequest);
    assert!(matches!(e.message, ApiErrorMessage::InvalidStoragePath(ref m) if m == "Path can only be direct"));
    assert_eq!(create_directory_target(&user, &"docs".to_string()).ok().unwrap(), "/srv/u1/docs");
}

#[test]
fn downloads_are_planned() {
    let user = storage().with_user(UserId::from_value("u1".to_string()));
    assert_eq!(download_file_name(&"docs/a.txt".to_string()).ok().unwrap(), "a.txt");
    let e = download_file_name(&"docs/..".to_string()).err().unwrap();
    assert_eq!(custom(&e.message), "No file name provided");
    match download_plan(&user, &"a.txt".to_string(), Ok(FileKind::File)) {
        Ok(DownloadPlan::File(p)) => assert_eq!(p, "/srv/u1/a.txt"),
        _ => panic!(),
    }
    assert!(matches!(download_plan(&user, &"d".to_string(), Ok(FileKind::Directory)), Ok(DownloadPlan::Directory)));
    let e = download_plan(&user, &"s".to_string(), Ok(FileKind::Other)).err().unwrap();
    assert_eq!(e.kind, ApiErrorKind::NotFound);
    let e = download_plan(&user, &"s".to_string(), Err(IoError { kind: IoErrorKind::PermissionDenied, message: "d".to_string() })).err().unwrap();
    assert_eq!(e.kind, ApiErrorKind::InternalServerError);
    let e = download_error_response(IoError { kind: IoErrorKind::NotFound, message: "d".to_string() });
    assert!(matches!(e.message, ApiErrorMessage::FileNotFound));
    assert_eq!(content_disposition("a.txt"), "attachment; filename=\"a.txt\"");
}

#[test]
fn uploads_are_written_inside_the_user_directory() {
    let s = storage();
    let dir = upload_directory(&s, &UserId::from_value("u1".to_string()), &"docs".to_string());
    assert_eq!(dir, "/srv/u1/docs");
    assert_eq!(upload_file_path(&dir, Some("a.txt".to_string()), "now"), "/srv/u1/docs/a.txt");
    assert_eq!(upload_file_path(&dir, None, "2024-01-01 00:00:00 UTC"), "/srv/u1/docs/upload-2024-01-01 00:00:00 UTC");
    let e = upload_read_error("boom");
    assert_eq!(e.kind, ApiErrorKind::BadRequest);
    assert_eq!(custom(&e.message), "Failed to read multipart field: boom");
    let e = upload_create_error(IoError { kind: IoErrorKind::Other, message: "full".to_string() });
    assert_eq!(e.kind, ApiErrorKind::InternalServerError);
    assert_eq!(custom(&e.message), "full");
}

#[test]
fn new_token_pairs_name_the_session() {
    let u = user_with_password("pw");
    let sid = SessionId::from_value("s9".to_string());
    let (a, r) = login_token_claims(&u, &sid).unwrap();
    assert_eq!(a.user_id.value(), "u1");
    assert_eq!((r.user_id.value(), r.session_id.value()), ("u1", "s9"));
    assert_eq!((a.exp - a.iat, r.exp - r.iat), (900, 604_800));
    let (a2, r2) = refresh_token_claims(&r).unwrap();
    assert_eq!(a2.user_id.value(), "u1");
    assert_eq!((r2.user_id.value(), r2.session_id.value()), ("u1", "s9"));
}

#[test]
fn route_claims_fix_the_missing_token_text() {
    let e = refresh_request_claims(Ok(None)).err().unwrap();
    assert_eq!(e.kind, ApiErrorKind::BadRequest);
    assert_eq!(custom(&e.message), "No cookie 'refresh_token'");
    let e = logout_request_claims(Ok(None)).err().unwrap();
    assert_eq!(e.kind, ApiErrorKind::BadRequest);
    assert_eq!(custom(&e.message), "Refresh token is required");
    let expired = || Err(TokenCookieError { kind: TokenCookieErrorKind::ValidationError, message: "expired".to_string() });
    assert_eq!(refresh_request_claims(expired()).err().unwrap().kind, ApiErrorKind::Unauthorized);
    assert_eq!(logout_request_claims(expired()).err().unwrap().kind, ApiErrorKind::Unauthorized);
    let claims = RefreshTokenClaims::at(0, 10, &UserId::from_value("u".to_string()), &SessionId::from_value("s".to_string())).unwrap();
    assert_eq!(refresh_request_claims(Ok(Some(claims))).ok().unwrap().exp, 10);
}

#[test]
fn download_content_types() {
    assert_eq!(DownloadPlan::File("/srv/u1/a.txt".to_string()).content_type(), "application/octet-stream");
    assert_eq!(DownloadPlan::Directory.content_type(), "application/zip");
}

#[test]
fn a_refresh_token_works_once() {
    let s = Session {
        id: SessionId::from_value("s".to_string()),
        user_id: UserId::from_value("u".to_string()),
        refresh_token: hash("first").unwrap(),
    };
    assert!(authorize_session(Ok(Some(s.duplicate())), "first", &Ok(None)).is_ok());
    let (refreshed, tokens) = refresh_session(s, Ok(("a2".to_string(), "second".to_string()))).ok().unwrap();
    assert_eq!(refreshed.user_id.value(), "u");
    assert!(authorize_session(Ok(Some(refreshed.duplicate())), &tokens.1, &Ok(None)).is_ok());
    match authorize_session(Ok(Some(refreshed)), "first", &Ok(None)) {
        Err(r) => {
            assert_eq!(r.error.kind, ApiErrorKind::Unauthorized);
            assert_eq!(custom(&r.error.message), "Invalid refresh token");
            assert!(r.removals.access.is_none());
            assert!(r.removals.refresh.is_none());
        }
        Ok(_) => panic!("the old refresh token is refused"),
    }
}
