//! The decisions of the server's routes. Each route waits on the repository
//! and the file system between its steps; every step here takes what the
//! previous wait gave and decides how the route goes on or what it answers.

use vstd::prelude::*;
use crate::api::{is_internal_error, is_text_error, ApiError, ApiErrorKind, ApiErrorMessage, DeletePathErrorKind};
use crate::auth::{
    build_token_cookies, is_token_cookie, removes_token_cookies, session_end_removals, token_cookie_removals,
    token_error_answer, token_error_response, CookieSpec, JwtFailure, TokenCookieError, TokenCookieRemovals,
};
use crate::database::{database_error_text, DatabaseError};
use crate::id::SessionId;
use crate::jwt::{
    chrono_max_timestamp, default_token_lifetimes, token_pair_claims, AccessTokenClaims, RefreshTokenClaims, ACCESS_TOKEN_LIFETIME,
    REFRESH_TOKEN_LIFETIME,
};
use crate::model::{Session, User};
use crate::path::has_parent_reference;
use crate::storage::io_error::{IoError, IoErrorKind};
use crate::storage::{Storage, WithUserStorageState};
use crate::path::{file_name, file_name_of, join, spec_join};
use crate::id::UserId;
use crate::storage::storage_content::FileKind;
use crate::util::{argon2_verifies, hash, hashable, verify_hash};

verus! {

/// A refused session, and the token cookies the client is told to drop.
pub struct SessionRejection {
    pub error: ApiError<ApiErrorKind>,
    pub removals: TokenCookieRemovals,
}

/// The claims of the refresh token a request must carry: a failure with the
/// cookie is answered as such failures are, and a missing token is a bad
/// request with the given text.
pub fn required_refresh_claims(
    refresh: Result<Option<RefreshTokenClaims>, TokenCookieError>,
    missing_text: &str,
) -> (res: Result<RefreshTokenClaims, ApiError<ApiErrorKind>>)
    ensures
        refresh matches Ok(Some(c)) ==> res == Ok::<RefreshTokenClaims, ApiError<ApiErrorKind>>(c),
        refresh matches Ok(None) ==> (res matches Err(e) && is_text_error(e, ApiErrorKind::BadRequest, missing_text@)),
        refresh matches Err(t) ==> (res matches Err(e) && token_error_answer(t, e)),
{
    match refresh {
        Err(err) => Err(token_error_response(err)),
        Ok(None) => Err(ApiError::with_text(ApiErrorKind::BadRequest, missing_text)),
        Ok(Some(claims)) => Ok(claims),
    }
}

/// The refresh-token claims a token refresh works on: without a refresh token
/// the request is refused with "No cookie 'refresh_token'".
pub fn refresh_request_claims(
    refresh: Result<Option<RefreshTokenClaims>, TokenCookieError>,
) -> (res: Result<RefreshTokenClaims, ApiError<ApiErrorKind>>)
    ensures
        refresh matches Ok(Some(c)) ==> res == Ok::<RefreshTokenClaims, ApiError<ApiErrorKind>>(c),
        refresh matches Ok(None) ==> (res matches Err(e) && is_text_error(
            e,
            ApiErrorKind::BadRequest,
            "No cookie 'refresh_token'"@,
        )),
        refresh matches Err(t) ==> (res matches Err(e) && token_error_answer(t, e)),
{
    required_refresh_claims(refresh, "No cookie 'refresh_token'")
}

/// The refresh-token claims a logout works on: without a refresh token the
/// request is refused with "Refresh token is required".
pub fn logout_request_claims(
    refresh: Result<Option<RefreshTokenClaims>, TokenCookieError>,
) -> (res: Result<RefreshTokenClaims, ApiError<ApiErrorKind>>)
    ensures
        refresh matches Ok(Some(c)) ==> res == Ok::<RefreshTokenClaims, ApiError<ApiErrorKind>>(c),
        refresh matches Ok(None) ==> (res matches Err(e) && is_text_error(
            e,
            ApiErrorKind::BadRequest,
            "Refresh token is required"@,
        )),
        refresh matches Err(t) ==> (res matches Err(e) && token_error_answer(t, e)),
{
    required_refresh_claims(refresh, "Refresh token is required")
}

/// The outcome of authorizing a session with the refresh token `refresh_token`,
/// from what looking the session up gave; `access_decoded` tells whether an
/// access token was sent and decoded.
pub open spec fn authorize_outcome(
    found: Result<Option<Session>, DatabaseError>,
    refresh_token: Seq<char>,
    access_decoded: bool,
    res: Result<Session, SessionRejection>,
) -> bool {
    match found {
        Err(_) => res matches Err(r) && is_internal_error(r.error) && removes_token_cookies(r.removals, false, false),
        Ok(None) => res matches Err(r) && is_text_error(r.error, ApiErrorKind::Unauthorized, "Invalid session"@)
            && removes_token_cookies(r.removals, access_decoded, true),
        Ok(Some(s)) => if argon2_verifies(refresh_token, s.refresh_token@) {
            res == Ok::<Session, SessionRejection>(s)
        } else {
            res matches Err(r) && is_text_error(r.error, ApiErrorKind::Unauthorized, "Invalid refresh token"@)
                && removes_token_cookies(r.removals, false, false)
        },
    }
}

/// The session that a refresh token belongs to, from what looking it up gave:
/// a failed lookup is the server's fault; an unknown session is unauthorized
/// and ends the session on the client, dropping the refresh cookie and the
/// access cookie where it was sent and decoded; a session whose stored hash
/// the presented token does not match is unauthorized. Only an unknown session
/// drops cookies.
pub fn authorize_session(
    found: Result<Option<Session>, DatabaseError>,
    refresh_token: &str,
    access: &Result<Option<AccessTokenClaims>, TokenCookieError>,
) -> (res: Result<Session, SessionRejection>)
    ensures
        authorize_outcome(found, refresh_token@, access matches Ok(Some(_)), res),
{
    match found {
        Err(_) => Err(SessionRejection { error: ApiError::internal(), removals: token_cookie_removals(false, false) }),
        Ok(None) => Err(SessionRejection {
            error: ApiError::with_text(ApiErrorKind::Unauthorized, "Invalid session"),
            removals: session_end_removals(access),
        }),
        Ok(Some(session)) => {
            if verify_hash(refresh_token, session.refresh_token.as_str()).is_err() {
                return Err(SessionRejection {
                    error: ApiError::with_text(ApiErrorKind::Unauthorized, "Invalid refresh token"),
                    removals: token_cookie_removals(false, false),
                });
            }
            Ok(session)
        },
    }
}

/// Whether `pair` are the claims of a token pair for `user_id` and
/// `session_id` with the lifetimes `lifetimes`: the access token names the
/// user, the refresh token the user and the session, both are issued at the
/// same moment, and each expires its lifetime after it is issued.
pub open spec fn pair_claims_for(
    pair: (AccessTokenClaims, RefreshTokenClaims),
    user_id: Seq<char>,
    session_id: Seq<char>,
    lifetimes: (i64, i64),
) -> bool {
    &&& pair.0.user_id@ == user_id
    &&& pair.1.user_id@ == user_id
    &&& pair.1.session_id@ == session_id
    &&& pair.0.iat == pair.1.iat
    &&& pair.0.exp == pair.0.iat + lifetimes.0
    &&& pair.1.exp == pair.1.iat + lifetimes.1
}

/// The claims of the token pair a login hands out: for the user who logged in
/// and the session the login opens, both issued at the clock reading taken at
/// the login, the access token lasting fifteen minutes and the refresh token
/// seven days from then.
pub fn login_token_claims(user: &User, session_id: &SessionId) -> (res: Option<(AccessTokenClaims, RefreshTokenClaims)>)
    ensures
        res matches Some(p) ==> pair_claims_for(p, user.id@, session_id@, (ACCESS_TOKEN_LIFETIME, REFRESH_TOKEN_LIFETIME)),
        res matches Some(p) ==> p.0.iat == p.1.iat && 0 <= p.0.iat <= chrono_max_timestamp()
            && p.0.exp == p.1.iat + 15 * 60 && p.1.exp == p.0.iat + 7 * 24 * 60 * 60,
{
    token_pair_claims(&user.id, session_id, default_token_lifetimes())
}

/// The claims of the token pair a refresh hands out: for the user and the
/// session that the presented refresh token names, both issued at the clock
/// reading taken at the refresh (not at a time the presented token carries),
/// with the default lifetimes from then.
pub fn refresh_token_claims(claims: &RefreshTokenClaims) -> (res: Option<(AccessTokenClaims, RefreshTokenClaims)>)
    ensures
        res matches Some(p) ==> pair_claims_for(p, claims.user_id@, claims.session_id@, (ACCESS_TOKEN_LIFETIME,
            REFRESH_TOKEN_LIFETIME)),
        res matches Some(p) ==> p.0.iat == p.1.iat && 0 <= p.0.iat <= chrono_max_timestamp()
            && p.0.exp == p.1.iat + 15 * 60 && p.1.exp == p.0.iat + 7 * 24 * 60 * 60,
{
    token_pair_claims(&claims.user_id, &claims.session_id, default_token_lifetimes())
}

/// The user who logs in, from what looking the name up gave: a failed lookup
/// is the server's fault; an unknown name and a wrong password are both
/// unauthorized, with the same text.
pub fn login_user(found: Result<Option<User>, DatabaseError>, password: &str) -> (res: Result<User, ApiError<ApiErrorKind>>)
    ensures
        found is Err ==> (res matches Err(e) && is_internal_error(e)),
        found matches Ok(None) ==> (res matches Err(e) && is_text_error(e, ApiErrorKind::Unauthorized,
            "Invalid username or password"@)),
        found matches Ok(Some(u)) ==> (if argon2_verifies(password@, u.password@) {
            res == Ok::<User, ApiError<ApiErrorKind>>(u)
        } else {
            res matches Err(e) && is_text_error(e, ApiErrorKind::Unauthorized, "Invalid username or password"@)
        }),
{
    let user = match found {
        Err(_) => return Err(ApiError::internal()),
        Ok(None) => return Err(ApiError::with_text(ApiErrorKind::Unauthorized, "Invalid username or password")),
        Ok(Some(user)) => user,
    };
    if verify_hash(password, user.password.as_str()).is_err() {
        return Err(ApiError::with_text(ApiErrorKind::Unauthorized, "Invalid username or password"));
    }
    Ok(user)
}

/// The session a login opens, from the new token pair: a failure to make the
/// tokens, or to hash the refresh token, is the server's fault; the session
/// stores the hash of the refresh token, which the refresh token matches.
pub fn login_session(user: User, session_id: SessionId, tokens: Result<(String, String), JwtFailure>) -> (res: Result<(Session, (String, String)), ApiError<ApiErrorKind>>)
    ensures
        tokens is Err ==> (res matches Err(e) && is_internal_error(e)),
        tokens matches Ok(t) && hashable(t.1@) ==> res is Ok,
        tokens matches Ok(t) && !hashable(t.1@) ==> (res matches Err(e) && is_internal_error(e)),
        res matches Ok((s, t)) ==> tokens == Ok::<(String, String), JwtFailure>(t) && s.id == session_id
            && s.user_id == user.id && argon2_verifies(t.1@, s.refresh_token@),
{
    let tokens = match tokens {
        Ok(t) => t,
        Err(_) => return Err(ApiError::internal()),
    };
    let refresh_token_hash = match hash(tokens.1.as_str()) {
        Ok(h) => h,
        Err(_) => return Err(ApiError::internal()),
    };
    Ok((Session { id: session_id, user_id: user.id, refresh_token: refresh_token_hash }, tokens))
}

/// The cookies that hand out a token pair once the session that backs it is
/// stored: a failure to store it is the server's fault.
pub fn token_pair_cookies(stored: Result<(), DatabaseError>, tokens: (String, String)) -> (res: Result<(CookieSpec, CookieSpec), ApiError<ApiErrorKind>>)
    ensures
        stored is Err ==> (res matches Err(e) && is_internal_error(e)),
        stored is Ok ==> (res matches Ok(c) && is_token_cookie(c.0, "access_token"@, tokens.0@, "/"@)
            && is_token_cookie(c.1, "refresh_token"@, tokens.1@, "/auth"@)),
{
    match stored {
        Err(_) => Err(ApiError::internal()),
        Ok(()) => Ok(build_token_cookies(tokens.0, tokens.1)),
    }
}

/// The outcome of refreshing `session` with the new token pair `tokens`: a
/// failure to make the tokens, or to hash a refresh token too long to hash, is
/// the server's fault; otherwise the session keeps its identifier and user and
/// stores a hash that the new refresh token matches.
pub open spec fn refresh_outcome(
    session: Session,
    tokens: Result<(String, String), JwtFailure>,
    res: Result<(Session, (String, String)), ApiError<ApiErrorKind>>,
) -> bool {
    &&& (tokens is Err ==> (res matches Err(e) && is_internal_error(e)))
    &&& (tokens matches Ok(t) && hashable(t.1@) ==> res is Ok)
    &&& (tokens matches Ok(t) && !hashable(t.1@) ==> (res matches Err(e) && is_internal_error(e)))
    &&& (res matches Ok((s, t)) ==> tokens == Ok::<(String, String), JwtFailure>(t) && s.id == session.id
        && s.user_id == session.user_id && argon2_verifies(t.1@, s.refresh_token@))
}

/// The session after a refresh, from the new token pair: it keeps its
/// identifier and user and stores the hash of the new refresh token; a failure
/// to make the tokens or the hash is the server's fault.
pub fn refresh_session(session: Session, tokens: Result<(String, String), JwtFailure>) -> (res: Result<(Session, (String, String)), ApiError<ApiErrorKind>>)
    ensures
        refresh_outcome(session, tokens, res),
{
    let tokens = match tokens {
        Ok(t) => t,
        Err(_) => return Err(ApiError::internal()),
    };
    let mut session = session;
    session.refresh_token = match hash(tokens.1.as_str()) {
        Ok(h) => h,
        Err(_) => return Err(ApiError::internal()),
    };
    Ok((session, tokens))
}

/// The end of a logout, from what deleting the session gave: a failure is the
/// server's fault; otherwise the session ends on the client too, dropping the
/// refresh cookie and the access cookie where it was sent and decoded.
pub fn logout_finish(
    deleted: Result<(), DatabaseError>,
    access: &Result<Option<AccessTokenClaims>, TokenCookieError>,
) -> (res: Result<TokenCookieRemovals, ApiError<ApiErrorKind>>)
    ensures
        deleted is Err ==> (res matches Err(e) && is_internal_error(e)),
        deleted is Ok ==> (res matches Ok(r) && removes_token_cookies(r, access matches Ok(Some(_)), true)),
{
    match deleted {
        Err(_) => Err(ApiError::internal()),
        Ok(()) => Ok(session_end_removals(access)),
    }
}

/// The hash of the password of a new user, from what looking the name up
/// gave: a failed lookup is the server's fault, a taken name is a conflict,
/// and a failure to hash is the server's fault.
pub fn register_password(found: Result<Option<User>, DatabaseError>, password: &str) -> (res: Result<String, ApiError<ApiErrorKind>>)
    ensures
        found is Err ==> (res matches Err(e) && is_internal_error(e)),
        found matches Ok(Some(_)) ==> (res matches Err(e) && is_text_error(e, ApiErrorKind::Conflict,
            "Username already exists"@)),
        found matches Ok(None) && hashable(password@) ==> res is Ok,
        found matches Ok(None) && !hashable(password@) ==> (res matches Err(e) && is_internal_error(e)),
        res matches Ok(h) ==> found matches Ok(None) && argon2_verifies(password@, h@),
{
    match found {
        Err(_) => return Err(ApiError::internal()),
        Ok(Some(_)) => return Err(ApiError::with_text(ApiErrorKind::Conflict, "Username already exists")),
        Ok(None) => {},
    }
    match hash(password) {
        Ok(h) => Ok(h),
        Err(_) => Err(ApiError::internal()),
    }
}

/// The outcome of storing a new user: a taken identifier is a conflict, any
/// other failure is the server's fault and carries the failure's text.
pub fn register_stored(created: Result<(), DatabaseError>) -> (res: Result<(), ApiError<ApiErrorKind>>)
    ensures
        created is Ok ==> res is Ok,
        created matches Err(DatabaseError::UniqueViolation(_)) ==> (res matches Err(e) && is_text_error(e,
            ApiErrorKind::Conflict, "Username already exists"@)),
        created is Err && !(created->Err_0 is UniqueViolation) ==> (res matches Err(e) && is_text_error(e,
            ApiErrorKind::InternalServerError, database_error_text(created->Err_0))),
{
    match created {
        Ok(()) => Ok(()),
        Err(DatabaseError::UniqueViolation(_)) => Err(ApiError::with_text(ApiErrorKind::Conflict, "Username already exists")),
        Err(err) => {
            let text = err.message();
            Err(ApiError { kind: ApiErrorKind::InternalServerError, message: ApiErrorMessage::Custom(text) })
        },
    }
}

/// The outcome of creating the new user's directory: a failure is a bad
/// request carrying the failure's text.
pub fn register_directory(created: Result<(), IoError>) -> (res: Result<(), ApiError<ApiErrorKind>>)
    ensures
        created is Ok ==> res is Ok,
        created matches Err(io) ==> (res matches Err(e) && is_text_error(e, ApiErrorKind::BadRequest, io.message@)),
{
    match created {
        Ok(()) => Ok(()),
        Err(io) => Err(ApiError { kind: ApiErrorKind::BadRequest, message: ApiErrorMessage::Custom(io.message) }),
    }
}

/// What the dashboard shows.
pub struct DashboardResponse {
    pub name: String,
}

/// The dashboard of the requesting user, from what looking the user up gave:
/// a failed lookup is the server's fault, and a user that the token names but
/// the repository does not hold is not found.
pub fn dashboard_response(found: Result<Option<User>, DatabaseError>) -> (res: Result<DashboardResponse, ApiError<ApiErrorKind>>)
    ensures
        found is Err ==> (res matches Err(e) && is_internal_error(e)),
        found is Ok && found->Ok_0 is None ==> (res matches Err(e) && e.kind == ApiErrorKind::NotFound
            && e.message is InternalServerError),
        found matches Ok(Some(u)) ==> (res matches Ok(d) && d.name == u.name),
{
    match found {
        Err(_) => Err(ApiError::internal()),
        Ok(None) => Err(ApiError { kind: ApiErrorKind::NotFound, message: ApiErrorMessage::InternalServerError }),
        Ok(Some(user)) => Ok(DashboardResponse { name: user.name }),
    }
}

/// The answer to a failed storage operation of browsing or creating a
/// directory: a missing path is not found, anything else is a bad request
/// carrying the failure's text.
pub open spec fn storage_error_answer(io: IoError, e: ApiError<ApiErrorKind>) -> bool {
    if io.kind == IoErrorKind::NotFound {
        e.kind == ApiErrorKind::NotFound && e.message is FileNotFound
    } else {
        is_text_error(e, ApiErrorKind::BadRequest, io.message@)
    }
}

/// The answer to a failed storage operation of browsing or creating a directory.
pub fn storage_error_response(io: IoError) -> (res: ApiError<ApiErrorKind>)
    ensures
        storage_error_answer(io, res),
{
    if io.kind == IoErrorKind::NotFound {
        ApiError { kind: ApiErrorKind::NotFound, message: ApiErrorMessage::FileNotFound }
    } else {
        ApiError { kind: ApiErrorKind::BadRequest, message: ApiErrorMessage::Custom(io.message) }
    }
}

/// The answer to deleting a path, from what the deletion gave.
pub fn delete_response(deleted: Result<(), IoError>) -> (res: Result<(), ApiError<DeletePathErrorKind>>)
    ensures
        deleted is Ok ==> res is Ok,
        deleted matches Err(io) ==> (res matches Err(e) && (if io.kind == IoErrorKind::NotFound {
            e.kind == DeletePathErrorKind::NotFound && e.message is FileNotFound
        } else {
            is_text_error(e, DeletePathErrorKind::BadRequest, io.message@)
        })),
{
    match deleted {
        Ok(()) => Ok(()),
        Err(io) => if io.kind == IoErrorKind::NotFound {
            Err(ApiError { kind: DeletePathErrorKind::NotFound, message: ApiErrorMessage::FileNotFound })
        } else {
            Err(ApiError { kind: DeletePathErrorKind::BadRequest, message: ApiErrorMessage::Custom(io.message) })
        },
    }
}

/// The path a browse or an upload names: none is the empty path.
pub fn requested_path(path: Option<String>) -> (res: String)
    ensures
        path matches Some(p) ==> res == p,
        path is None ==> res@ == Seq::<char>::empty(),
{
    match path {
        Some(p) => p,
        None => String::new(),
    }
}

/// The directory to create for the user's `path`: a path that holds `..` is a
/// bad request naming the invalid path.
pub fn create_directory_target(storage: &Storage<WithUserStorageState>, path: &String) -> (res: Result<String, ApiError<ApiErrorKind>>)
    ensures
        has_parent_reference(path@) ==> (res matches Err(e) && e.kind == ApiErrorKind::BadRequest
            && (e.message matches ApiErrorMessage::InvalidStoragePath(m) && m@ == "Path can only be direct"@)),
        !has_parent_reference(path@) ==> (res matches Ok(p) && p@ == spec_join(storage.root(),
            spec_join(storage.user_id()@, path@))),
{
    match Storage::validate_path(path) {
        Err(reason) => Err(ApiError { kind: ApiErrorKind::BadRequest, message: ApiErrorMessage::InvalidStoragePath(reason) }),
        Ok(()) => Ok(storage.create_directory(path)),
    }
}

/// The name a download is saved under: the final component of the path; a
/// path without one is a bad request.
pub fn download_file_name(path: &String) -> (res: Result<String, ApiError<ApiErrorKind>>)
    ensures
        file_name_of(path@) is None ==> (res matches Err(e) && is_text_error(e, ApiErrorKind::BadRequest,
            "No file name provided"@)),
        file_name_of(path@) matches Some(n) ==> (res matches Ok(name) && name@ == n),
{
    match file_name(path.as_str()) {
        Some(name) => Ok(name),
        None => Err(ApiError::with_text(ApiErrorKind::BadRequest, "No file name provided")),
    }
}

/// The answer to a failure to read a download: a missing path is not found,
/// anything else is the server's fault.
pub open spec fn download_error_answer(io: IoError, e: ApiError<ApiErrorKind>) -> bool {
    if io.kind == IoErrorKind::NotFound {
        e.kind == ApiErrorKind::NotFound && e.message is FileNotFound
    } else {
        is_internal_error(e)
    }
}

/// The answer to a failure to read a download.
pub fn download_error_response(io: IoError) -> (res: ApiError<ApiErrorKind>)
    ensures
        download_error_answer(io, res),
{
    if io.kind == IoErrorKind::NotFound {
        ApiError { kind: ApiErrorKind::NotFound, message: ApiErrorMessage::FileNotFound }
    } else {
        ApiError::internal()
    }
}

/// What a download sends.
pub enum DownloadPlan {
    /// The file at the path is streamed.
    File(String),
    /// The directory is packed into a zip archive as it is streamed.
    Directory,
}

impl DownloadPlan {
    /// The `Content-Type` of the download: the bytes of a file, or a zip archive.
    pub fn content_type(&self) -> (res: String)
        ensures
            self is File ==> res@ == "application/octet-stream"@,
            self is Directory ==> res@ == "application/zip"@,
    {
        match self {
            DownloadPlan::File(_) => String::from_str("application/octet-stream"),
            DownloadPlan::Directory => String::from_str("application/zip"),
        }
    }
}

/// What a download of the user's `path` sends, from what reading its metadata
/// gave: a file is streamed, a directory is packed, anything else is not
/// found, and a failure to read the metadata is answered as such failures are.
pub fn download_plan(storage: &Storage<WithUserStorageState>, path: &String, metadata: Result<FileKind, IoError>) -> (res: Result<DownloadPlan, ApiError<ApiErrorKind>>)
    ensures
        metadata matches Err(io) ==> (res matches Err(e) && download_error_answer(io, e)),
        metadata == Ok::<FileKind, IoError>(FileKind::File) ==> (res matches Ok(DownloadPlan::File(p))
            && p@ == spec_join(storage.root(), spec_join(storage.user_id()@, path@))),
        metadata == Ok::<FileKind, IoError>(FileKind::Directory) ==> (res matches Ok(DownloadPlan::Directory)),
        metadata == Ok::<FileKind, IoError>(FileKind::Other) ==> (res matches Err(e) && e.kind
            == ApiErrorKind::NotFound && e.message is FileNotFound),
{
    match metadata {
        Err(io) => Err(download_error_response(io)),
        Ok(FileKind::File) => Ok(DownloadPlan::File(storage.stream_file(path))),
        Ok(FileKind::Directory) => Ok(DownloadPlan::Directory),
        Ok(FileKind::Other) => Err(ApiError { kind: ApiErrorKind::NotFound, message: ApiErrorMessage::FileNotFound }),
    }
}

/// The `Content-Disposition` header of a download saved as `name`.
pub fn content_disposition(name: &str) -> (res: String)
    ensures
        res@ == "attachment; filename=\""@ + name@ + "\""@,
{
    String::from_str("attachment; filename=\"").concat(name).concat("\"")
}

/// The directory an upload to `path` writes into: the path inside the user's
/// directory below the root.
pub fn upload_directory(storage: &Storage, user_id: &UserId, path: &String) -> (res: String)
    ensures
        res@ == spec_join(spec_join(storage.root(), user_id@), path@),
{
    join(join(storage.root_path(), user_id.value()).as_str(), path.as_str())
}

/// The file an uploaded part is written to: its own file name in the upload
/// directory, or, for a part without one, `upload-` followed by the time.
pub fn upload_file_path(directory: &String, file_name: Option<String>, now: &str) -> (res: String)
    ensures
        file_name matches Some(n) ==> res@ == spec_join(directory@, n@),
        file_name is None ==> res@ == spec_join(directory@, "upload-"@ + now@),
{
    let name = match file_name {
        Some(n) => n,
        None => String::from_str("upload-").concat(now),
    };
    join(directory.as_str(), name.as_str())
}

/// The answer to a part of an upload that could not be read: a bad request
/// that carries the failure's text.
pub fn upload_read_error(message: &str) -> (res: ApiError<ApiErrorKind>)
    ensures
        is_text_error(res, ApiErrorKind::BadRequest, "Failed to read multipart field: "@ + message@),
{
    let text = String::from_str("Failed to read multipart field: ").concat(message);
    ApiError { kind: ApiErrorKind::BadRequest, message: ApiErrorMessage::Custom(text) }
}

/// The answer to an uploaded file that could not be created: the server's
/// fault, carrying the failure's text.
pub fn upload_create_error(io: IoError) -> (res: ApiError<ApiErrorKind>)
    ensures
        is_text_error(res, ApiErrorKind::InternalServerError, io.message@),
{
    ApiError { kind: ApiErrorKind::InternalServerError, message: ApiErrorMessage::Custom(io.message) }
}

/// A refresh token works once. After a refresh of a session has handed out a
/// new token pair and stored the refreshed session, authorizing with the new
/// refresh token gives the session, and authorizing again with the refresh
/// token that was presented before is refused as "Invalid refresh token",
/// dropping no cookie. This holds unless Argon2, under the new hash's salt,
/// turns the old token into the same output as the new one.
pub proof fn law_refresh_token_works_once(
    session: Session,
    tokens: Result<(String, String), JwtFailure>,
    refreshed: (Session, (String, String)),
    old_token: Seq<char>,
    access_decoded: bool,
    with_new: Result<Session, SessionRejection>,
    with_old: Result<Session, SessionRejection>,
)
    requires
        refresh_outcome(session, tokens, Ok(refreshed)),
        authorize_outcome(Ok(Some(refreshed.0)), refreshed.1.1@, access_decoded, with_new),
        authorize_outcome(Ok(Some(refreshed.0)), old_token, access_decoded, with_old),
        !argon2_verifies(old_token, refreshed.0.refresh_token@),
    ensures
        with_new == Ok::<Session, SessionRejection>(refreshed.0),
        refreshed.0.id == session.id,
        refreshed.0.user_id == session.user_id,
        with_old matches Err(r) && is_text_error(r.error, ApiErrorKind::Unauthorized, "Invalid refresh token"@)
            && removes_token_cookies(r.removals, false, false),
{
}

/// The two tokens of a pair handed out with the default lifetimes are issued
/// together: the access token expires fifteen minutes, and the refresh token
/// seven days, after the one moment at which both were issued.
pub proof fn law_token_pair_issued_together(
    pair: (AccessTokenClaims, RefreshTokenClaims),
    user_id: Seq<char>,
    session_id: Seq<char>,
)
    requires
        pair_claims_for(pair, user_id, session_id, (ACCESS_TOKEN_LIFETIME, REFRESH_TOKEN_LIFETIME)),
    ensures
        pair.0.iat == pair.1.iat,
        pair.0.exp == pair.1.iat + 15 * 60,
        pair.1.exp == pair.0.iat + 7 * 24 * 60 * 60,
        pair.0.user_id@ == user_id && pair.1.user_id@ == user_id && pair.1.session_id@ == session_id,
{
}

} // verus!
