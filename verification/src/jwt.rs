//! The claims carried by the access and refresh tokens, and when they expire.
//!
//! Tokens are signed JSON Web Tokens; writing the claims as JSON and signing
//! them is done by the caller. The claims themselves are made here.

use vstd::prelude::*;
use chrono::{DateTime, TimeDelta, Utc};
use crate::id::{SessionId, UserId};

verus! {

/// The timestamp of the earliest moment chrono represents,
/// -262143-01-01T00:00:00 UTC (`DateTime::<Utc>::MIN_UTC`).
pub open spec fn chrono_min_timestamp() -> int {
    -8334601228800
}

/// The timestamp of the last second chrono represents,
/// +262142-12-31T23:59:59 UTC (`DateTime::<Utc>::MAX_UTC`).
pub open spec fn chrono_max_timestamp() -> int {
    8210266876799
}

/// Whether chrono represents the moment of the timestamp `t`.
pub open spec fn chrono_represents(t: int) -> bool {
    chrono_min_timestamp() <= t <= chrono_max_timestamp()
}

/// What chrono gives for the moment `seconds` after the Unix timestamp
/// `timestamp`, as a timestamp: the sum, where chrono represents both moments
/// and the number of seconds is within `TimeDelta`'s bound of
/// `i64::MAX / 1000` either way; otherwise nothing.
pub open spec fn chrono_seconds_later(timestamp: i64, seconds: i64) -> Option<i64> {
    if -(i64::MAX / 1000) <= seconds <= i64::MAX / 1000 && chrono_represents(timestamp as int)
        && chrono_represents(timestamp + seconds) {
        Some((timestamp + seconds) as i64)
    } else {
        None
    }
}

/// The current time as seconds since the Unix epoch, from `chrono::Utc::now`.
/// Which time it is depends on the clock and is not claimed. What is claimed is
/// what `Utc::now` shows: it panics on a clock set before the epoch and makes a
/// `DateTime` with `DateTime::from_timestamp(..).unwrap()`, so a time it gives
/// is not before the epoch and is one that chrono represents.
#[verifier::external_body]
fn now_timestamp() -> (res: i64)
    ensures
        0 <= res <= chrono_max_timestamp(),
{
    Utc::now().timestamp()
}

/// Adds `seconds` to the moment `timestamp` with chrono (`TimeDelta::try_seconds`,
/// `DateTime::from_timestamp` and `DateTime::checked_add_signed`) and gives the
/// timestamp of the result: `try_seconds` refuses more than `i64::MAX / 1000`
/// seconds either way, `from_timestamp` and `checked_add_signed` refuse a
/// moment outside chrono's range of dates, and a whole number of seconds added
/// to a whole second moves the timestamp by exactly that number.
#[verifier::external_body]
fn seconds_later(timestamp: i64, seconds: i64) -> (res: Option<i64>)
    ensures
        res == chrono_seconds_later(timestamp, seconds),
{
    let delta = TimeDelta::try_seconds(seconds)?;
    let start = DateTime::<Utc>::from_timestamp(timestamp, 0)?;
    start.checked_add_signed(delta).map(|t| t.timestamp())
}

/// Lifetime of an access token, in seconds: fifteen minutes.
pub const ACCESS_TOKEN_LIFETIME: i64 = 900;

/// Lifetime of a refresh token, in seconds: seven days.
pub const REFRESH_TOKEN_LIFETIME: i64 = 604800;

/// The lifetimes of the access and the refresh token that a login hands out.
pub fn default_token_lifetimes() -> (res: (i64, i64))
    ensures
        res.0 == 15 * 60,
        res.1 == 7 * 24 * 60 * 60,
{
    (ACCESS_TOKEN_LIFETIME, REFRESH_TOKEN_LIFETIME)
}

/// The claims of a refresh token: when it was issued, when it expires, and the
/// user and session it belongs to.
pub struct RefreshTokenClaims {
    pub iat: i64,
    pub exp: i64,
    pub user_id: UserId,
    pub session_id: SessionId,
}

/// The claims of an access token: when it was issued, when it expires, and the
/// user it belongs to.
pub struct AccessTokenClaims {
    pub iat: i64,
    pub exp: i64,
    pub user_id: UserId,
}

impl AccessTokenClaims {
    /// The claims of an access token issued at `now` that lasts `expires_in`
    /// seconds, or `None` where chrono cannot represent its expiry.
    pub fn at(now: i64, expires_in: i64, user_id: &UserId) -> (res: Option<Self>)
        ensures
            res is Some <==> chrono_seconds_later(now, expires_in) is Some,
            expires_in > i64::MAX / 1000 || expires_in < -(i64::MAX / 1000) ==> res is None,
            res matches Some(c) ==> c.iat == now && c.exp == now + expires_in && c.user_id@ == user_id@
                && chrono_seconds_later(now, expires_in) == Some(c.exp),
    {
        match seconds_later(now, expires_in) {
            Some(exp) => Some(AccessTokenClaims { iat: now, exp, user_id: user_id.duplicate() }),
            None => None,
        }
    }

    /// The claims of an access token issued now that lasts `expires_in` seconds,
    /// or `None` where chrono cannot represent the expiry. The time of issue is
    /// not before the epoch, so a lifetime that is not positive and reaches no
    /// further back than chrono's earliest moment always gives claims; whether
    /// a positive lifetime does depends on how far the clock is from the end of
    /// chrono's range.
    pub fn issue(expires_in: i64, user_id: &UserId) -> (res: Option<Self>)
        ensures
            res matches Some(c) ==> c.exp == c.iat + expires_in && c.user_id@ == user_id@
                && chrono_seconds_later(c.iat, expires_in) == Some(c.exp),
            res matches Some(c) ==> 0 <= c.iat <= chrono_max_timestamp() && chrono_represents(c.exp as int),
            chrono_min_timestamp() <= expires_in <= 0 ==> res is Some,
            res is None ==> expires_in > 0 || expires_in < chrono_min_timestamp(),
            expires_in > chrono_max_timestamp() || expires_in < chrono_min_timestamp()
                - chrono_max_timestamp() ==> res is None,
    {
        Self::at(now_timestamp(), expires_in, user_id)
    }
}

impl RefreshTokenClaims {
    /// The claims of a refresh token issued at `now` that lasts `expires_in`
    /// seconds, or `None` where chrono cannot represent its expiry.
    pub fn at(now: i64, expires_in: i64, user_id: &UserId, session_id: &SessionId) -> (res: Option<Self>)
        ensures
            res is Some <==> chrono_seconds_later(now, expires_in) is Some,
            expires_in > i64::MAX / 1000 || expires_in < -(i64::MAX / 1000) ==> res is None,
            res matches Some(c) ==> c.iat == now && c.exp == now + expires_in && c.user_id@ == user_id@
                && c.session_id@ == session_id@ && chrono_seconds_later(now, expires_in) == Some(c.exp),
    {
        match seconds_later(now, expires_in) {
            Some(exp) => Some(
                RefreshTokenClaims {
                    iat: now,
                    exp,
                    user_id: user_id.duplicate(),
                    session_id: session_id.duplicate(),
                },
            ),
            None => None,
        }
    }

    /// The claims of a refresh token issued now that lasts `expires_in` seconds,
    /// or `None` where chrono cannot represent the expiry. The time of issue is
    /// not before the epoch, so a lifetime that is not positive and reaches no
    /// further back than chrono's earliest moment always gives claims; whether
    /// a positive lifetime does depends on how far the clock is from the end of
    /// chrono's range.
    pub fn issue(expires_in: i64, user_id: &UserId, session_id: &SessionId) -> (res: Option<Self>)
        ensures
            res matches Some(c) ==> c.exp == c.iat + expires_in && c.user_id@ == user_id@
                && c.session_id@ == session_id@ && chrono_seconds_later(c.iat, expires_in) == Some(c.exp),
            res matches Some(c) ==> 0 <= c.iat <= chrono_max_timestamp() && chrono_represents(c.exp as int),
            chrono_min_timestamp() <= expires_in <= 0 ==> res is Some,
            res is None ==> expires_in > 0 || expires_in < chrono_min_timestamp(),
            expires_in > chrono_max_timestamp() || expires_in < chrono_min_timestamp()
                - chrono_max_timestamp() ==> res is None,
    {
        Self::at(now_timestamp(), expires_in, user_id, session_id)
    }
}

/// The claims of a token pair for `user_id` and `session_id`: the access
/// token's and then the refresh token's, both issued at one reading of the
/// clock taken when the pair is made, with the given lifetimes; `None` where
/// chrono cannot represent an expiry.
pub fn token_pair_claims(user_id: &UserId, session_id: &SessionId, lifetimes: (i64, i64)) -> (res: Option<(AccessTokenClaims, RefreshTokenClaims)>)
    ensures
        res matches Some(p) ==> {
            &&& p.0.user_id@ == user_id@
            &&& p.1.user_id@ == user_id@
            &&& p.1.session_id@ == session_id@
            &&& p.0.iat == p.1.iat
            &&& 0 <= p.0.iat <= chrono_max_timestamp()
            &&& p.0.exp == p.0.iat + lifetimes.0
            &&& p.1.exp == p.1.iat + lifetimes.1
        },
        chrono_min_timestamp() <= lifetimes.0 <= 0 && chrono_min_timestamp() <= lifetimes.1 <= 0 ==> res is Some,
        res is None ==> lifetimes.0 > 0 || lifetimes.0 < chrono_min_timestamp() || lifetimes.1 > 0 || lifetimes.1
            < chrono_min_timestamp(),
{
    let now = now_timestamp();
    let access = match AccessTokenClaims::at(now, lifetimes.0, user_id) {
        Some(c) => c,
        None => return None,
    };
    let refresh = match RefreshTokenClaims::at(now, lifetimes.1, user_id, session_id) {
        Some(c) => c,
        None => return None,
    };
    Some((access, refresh))
}

} // verus!
