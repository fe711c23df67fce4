//! Authentication by tokens in cookies: the cookies that carry the tokens, how
//! a failure to decode a token is classed, and who a request is made by.

use vstd::prelude::*;
use crate::api::{is_internal_error, is_text_error, ApiError, ApiErrorKind, ApiErrorMessage};
use crate::id::UserId;
use crate::jwt::{AccessTokenClaims, RefreshTokenClaims};

verus! {

/// The cookie attribute that limits sending a cookie with cross-site requests.
#[derive(Clone, Copy, Debug, PartialEq, Eq, Structural)]
pub enum SameSite {
    Strict,
    Lax,
    NoRestriction,
}

/// A cookie to set on the client: name, value and attributes.
pub struct CookieSpec {
    pub name: String,
    pub value: String,
    pub path: String,
    pub http_only: bool,
    pub same_site: SameSite,
    pub secure: bool,
}

/// Whether `c` is the HTTP-only, same-site-lax, non-secure cookie `name` with
/// the given value, sent for paths below `path`.
pub open spec fn is_token_cookie(c: CookieSpec, name: Seq<char>, value: Seq<char>, path: Seq<char>) -> bool {
    &&& c.name@ == name
    &&& c.value@ == value
    &&& c.path@ == path
    &&& c.http_only
    &&& c.same_site == SameSite::Lax
    &&& !c.secure
}

/// The cookies that carry a new pair of tokens: the access token for every
/// path, the refresh token only for the authentication routes.
pub fn build_token_cookies(access_token: String, refresh_token: String) -> (res: (CookieSpec, CookieSpec))
    ensures
        is_token_cookie(res.0, "access_token"@, access_token@, "/"@),
        is_token_cookie(res.1, "refresh_token"@, refresh_token@, "/auth"@),
{
    let access_token_cookie = CookieSpec {
        name: String::from_str("access_token"),
        value: access_token,
        path: String::from_str("/"),
        http_only: true,
        same_site: SameSite::Lax,
        secure: false,
    };
    let refresh_token_cookie = CookieSpec {
        name: String::from_str("refresh_token"),
        value: refresh_token,
        path: String::from_str("/auth"),
        http_only: true,
        same_site: SameSite::Lax,
        secure: false,
    };
    (access_token_cookie, refresh_token_cookie)
}

/// Why a token could not be decoded, as the token library reports it.
#[derive(Clone, Copy, Debug, PartialEq, Eq, Structural)]
pub enum JwtErrorKind {
    InvalidToken,
    InvalidSignature,
    InvalidEcdsaKey,
    InvalidEddsaKey,
    InvalidRsaKey,
    RsaFailedSigning,
    Signing,
    InvalidAlgorithmName,
    InvalidKeyFormat,
    MissingRequiredClaim,
    InvalidClaimFormat,
    ExpiredSignature,
    InvalidIssuer,
    InvalidAudience,
    InvalidSubject,
    ImmatureSignature,
    InvalidAlgorithm,
    MissingAlgorithm,
    Base64,
    Json,
    Utf8,
    Provider,
    Unknown,
}

/// A token that could not be decoded: why, and the text of the error.
#[derive(Debug)]
pub struct JwtFailure {
    pub kind: JwtErrorKind,
    pub message: String,
}

/// How a failure with a token cookie is answered.
#[derive(Clone, Copy, Debug, PartialEq, Eq, Structural)]
pub enum TokenCookieErrorKind {
    /// Token invalid
    ValidationError,
    /// Provided secret was invalid
    InvalidInputSecret,
    /// Token with invalid format
    InvalidToken,
}

/// The class of a decoding failure: the token's claims failed validation, the
/// server's secret is unusable, or the token itself is malformed.
pub open spec fn token_error_class(kind: JwtErrorKind) -> TokenCookieErrorKind {
    match kind {
        JwtErrorKind::MissingRequiredClaim | JwtErrorKind::InvalidClaimFormat
        | JwtErrorKind::ExpiredSignature | JwtErrorKind::InvalidIssuer
        | JwtErrorKind::InvalidAudience | JwtErrorKind::InvalidSubject
        | JwtErrorKind::ImmatureSignature | JwtErrorKind::InvalidAlgorithm
        | JwtErrorKind::MissingAlgorithm => TokenCookieErrorKind::ValidationError,
        JwtErrorKind::InvalidEcdsaKey => TokenCookieErrorKind::InvalidInputSecret,
        _ => TokenCookieErrorKind::InvalidToken,
    }
}

impl TokenCookieErrorKind {
    /// The class of a decoding failure of the given kind.
    pub fn from_jwt_error(value: JwtErrorKind) -> (res: TokenCookieErrorKind)
        ensures
            res == token_error_class(value),
    {
        match value {
            JwtErrorKind::MissingRequiredClaim | JwtErrorKind::InvalidClaimFormat
            | JwtErrorKind::ExpiredSignature | JwtErrorKind::InvalidIssuer
            | JwtErrorKind::InvalidAudience | JwtErrorKind::InvalidSubject
            | JwtErrorKind::ImmatureSignature | JwtErrorKind::InvalidAlgorithm
            | JwtErrorKind::MissingAlgorithm => TokenCookieErrorKind::ValidationError,
            JwtErrorKind::InvalidEcdsaKey => TokenCookieErrorKind::InvalidInputSecret,
            _ => TokenCookieErrorKind::InvalidToken,
        }
    }
}

/// A failure with a token cookie: its class and the text of the error.
#[derive(Debug)]
pub struct TokenCookieError {
    pub kind: TokenCookieErrorKind,
    pub message: String,
}

impl TokenCookieError {
    /// The failure for a token that could not be decoded.
    pub fn from_failure(failure: JwtFailure) -> (res: TokenCookieError)
        ensures
            res.kind == token_error_class(failure.kind),
            res.message == failure.message,
    {
        TokenCookieError { kind: TokenCookieErrorKind::from_jwt_error(failure.kind), message: failure.message }
    }
}

/// What a token cookie gives, from what decoding it gave: no cookie is no
/// claims; decoded claims are kept; a failure is classed. A cookie that failed
/// is removed by the caller.
pub fn process_token_cookie<C>(decoded: Option<Result<C, JwtFailure>>) -> (res: Result<Option<C>, TokenCookieError>)
    ensures
        decoded is None ==> res matches Ok(None),
        decoded matches Some(Ok(c)) ==> res == Ok::<Option<C>, TokenCookieError>(Some(c)),
        decoded matches Some(Err(f)) ==> (res matches Err(e) && e.kind == token_error_class(f.kind)
            && e.message == f.message),
{
    match decoded {
        None => Ok(None),
        Some(Ok(c)) => Ok(Some(c)),
        Some(Err(f)) => Err(TokenCookieError::from_failure(f)),
    }
}

/// What the access and the refresh cookie give, each from what decoding it gave.
pub fn process_token_cookies(
    access: Option<Result<AccessTokenClaims, JwtFailure>>,
    refresh: Option<Result<RefreshTokenClaims, JwtFailure>>,
) -> (res: (Result<Option<AccessTokenClaims>, TokenCookieError>, Result<Option<RefreshTokenClaims>, TokenCookieError>))
    ensures
        access is None ==> res.0 matches Ok(None),
        access matches Some(Ok(c)) ==> res.0 == Ok::<Option<AccessTokenClaims>, TokenCookieError>(Some(c)),
        access matches Some(Err(f)) ==> (res.0 matches Err(e) && e.kind == token_error_class(f.kind)
            && e.message == f.message),
        refresh is None ==> res.1 matches Ok(None),
        refresh matches Some(Ok(c)) ==> res.1 == Ok::<Option<RefreshTokenClaims>, TokenCookieError>(Some(c)),
        refresh matches Some(Err(f)) ==> (res.1 matches Err(e) && e.kind == token_error_class(f.kind)
            && e.message == f.message),
{
    (process_token_cookie(access), process_token_cookie(refresh))
}

/// How a failure with a token cookie is answered: an unusable secret is the
/// server's fault, failed validation is unauthorized, a malformed token is a
/// bad request; the last two carry the failure's text.
pub open spec fn token_error_answer(err: TokenCookieError, res: ApiError<ApiErrorKind>) -> bool {
    match err.kind {
        TokenCookieErrorKind::InvalidInputSecret => is_internal_error(res),
        TokenCookieErrorKind::ValidationError => is_text_error(res, ApiErrorKind::Unauthorized, err.message@),
        TokenCookieErrorKind::InvalidToken => is_text_error(res, ApiErrorKind::BadRequest, err.message@),
    }
}

/// The answer to a failure with a token cookie.
pub fn token_error_response(err: TokenCookieError) -> (res: ApiError<ApiErrorKind>)
    ensures
        token_error_answer(err, res),
{
    match err.kind {
        TokenCookieErrorKind::InvalidInputSecret => ApiError::internal(),
        TokenCookieErrorKind::ValidationError => ApiError {
            kind: ApiErrorKind::Unauthorized,
            message: ApiErrorMessage::Custom(err.message),
        },
        TokenCookieErrorKind::InvalidToken => ApiError {
            kind: ApiErrorKind::BadRequest,
            message: ApiErrorMessage::Custom(err.message),
        },
    }
}

/// The user a request is made by.
pub struct AuthenticatedUser {
    pub user_id: UserId,
}

impl AuthenticatedUser {
    fn new(user_id: UserId) -> (res: Self)
        ensures
            res.user_id == user_id,
    {
        AuthenticatedUser { user_id }
    }

    /// The user of a request, from what its access cookie gave: the user the
    /// decoded claims name; without an access token the request is bad; a
    /// failure with the cookie is answered as such failures are.
    pub fn from_access_token(access: Result<Option<AccessTokenClaims>, TokenCookieError>) -> (res: Result<AuthenticatedUser, ApiError<ApiErrorKind>>)
        ensures
            access matches Ok(Some(c)) ==> res matches Ok(u) && u.user_id == c.user_id,
            access matches Ok(None) ==> (res matches Err(e) && is_text_error(e, ApiErrorKind::BadRequest,
                "Missing access token"@)),
            access matches Err(t) ==> (res matches Err(e) && token_error_answer(t, e)),
    {
        match access {
            Err(err) => Err(token_error_response(err)),
            Ok(None) => Err(ApiError::with_text(ApiErrorKind::BadRequest, "Missing access token")),
            Ok(Some(claims)) => Ok(AuthenticatedUser::new(claims.user_id)),
        }
    }
}

/// A cookie the client is told to drop: its name and the path it was set for.
pub struct CookieRemoval {
    pub name: String,
    pub path: String,
}

/// Which of the two token cookies the client is told to drop.
pub struct TokenCookieRemovals {
    pub access: Option<CookieRemoval>,
    pub refresh: Option<CookieRemoval>,
}

/// Whether `r` drops the cookie `name` set for `path`.
pub open spec fn is_removal(r: CookieRemoval, name: Seq<char>, path: Seq<char>) -> bool {
    r.name@ == name && r.path@ == path
}

/// Whether `r` drops the access cookie exactly when `access` holds and the
/// refresh cookie exactly when `refresh` holds, each at the path where
/// `build_token_cookies` sets it.
pub open spec fn removes_token_cookies(r: TokenCookieRemovals, access: bool, refresh: bool) -> bool {
    &&& (r.access is Some <==> access)
    &&& (r.access matches Some(c) ==> is_removal(c, "access_token"@, "/"@))
    &&& (r.refresh is Some <==> refresh)
    &&& (r.refresh matches Some(c) ==> is_removal(c, "refresh_token"@, "/auth"@))
}

/// Drops the access cookie where `access` holds and the refresh cookie where
/// `refresh` holds.
pub fn token_cookie_removals(access: bool, refresh: bool) -> (res: TokenCookieRemovals)
    ensures
        removes_token_cookies(res, access, refresh),
{
    let a = if access {
        Some(CookieRemoval { name: String::from_str("access_token"), path: String::from_str("/") })
    } else {
        None
    };
    let r = if refresh {
        Some(CookieRemoval { name: String::from_str("refresh_token"), path: String::from_str("/auth") })
    } else {
        None
    };
    TokenCookieRemovals { access: a, refresh: r }
}

/// The token cookies that are dropped after processing them: each one that
/// failed to decode.
pub fn failed_cookie_removals<A, R>(
    access: &Result<Option<A>, TokenCookieError>,
    refresh: &Result<Option<R>, TokenCookieError>,
) -> (res: TokenCookieRemovals)
    ensures
        removes_token_cookies(res, access is Err, refresh is Err),
{
    token_cookie_removals(access.is_err(), refresh.is_err())
}

/// The token cookies that are dropped when a session ends: the refresh
/// cookie, and the access cookie where it was sent and decoded.
pub fn session_end_removals(access: &Result<Option<AccessTokenClaims>, TokenCookieError>) -> (res: TokenCookieRemovals)
    ensures
        removes_token_cookies(res, access matches Ok(Some(_)), true),
{
    let valid_access = match access {
        Ok(Some(_)) => true,
        _ => false,
    };
    token_cookie_removals(valid_access, true)
}

} // verus!
