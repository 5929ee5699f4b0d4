//! Authentication guard: stands in front of every protected operation.
//!
//! The guard reads a bearer token from the authorization header, has the token
//! service validate it, and either hands the identity claims on or rejects
//! the request. It keeps no state and never consults the persistence gateway.

use vstd::prelude::*;
use crate::config::AuthConfig;
use crate::errors::AppError;
use crate::response::{Body, BodyView, ErrorResponse, Response, ResponseView, STATUS_UNAUTHORIZED};
use crate::text::{same_text, slice_option};
use crate::token::{claims_result, unix_time, validate, validate_outcome, TokenError};

verus! {

/// Identity carried by a token: the subject, which is the user's email, and
/// the expiry instant in seconds since the Unix epoch.
#[derive(Clone, Debug, PartialEq, Eq)]
pub struct Claims {
    pub sub: String,
    pub exp: usize,
}

/// Mathematical value of [`Claims`].
pub struct ClaimsView {
    pub sub: Seq<char>,
    pub exp: usize,
}

impl View for Claims {
    type V = ClaimsView;

    open spec fn view(&self) -> ClaimsView {
        ClaimsView { sub: self.sub@, exp: self.exp }
    }
}

/// The scheme word of a bearer authorization header and the blank after it.
pub const BEARER_PREFIX: &'static str = "Bearer ";

/// The token of an authorization header of the form `Bearer <token>`: the
/// header starts with the seven characters of [`BEARER_PREFIX`] and the
/// token, which is not empty, is everything after them. `None` for every
/// other header.
pub open spec fn bearer_of(header: Seq<char>) -> Option<Seq<char>> {
    if header.len() >= 8 && header.subrange(0, 7) == BEARER_PREFIX@ {
        Some(header.subrange(7, header.len() as int))
    } else {
        None
    }
}

/// Result of the guard for a token presented at `now`: the claims of a valid
/// token, `Unauthorized` for every failure of validation.
pub open spec fn guard_outcome(secret: Seq<char>, token: Seq<char>, now: u64) -> Result<
    ClaimsView,
    AppError,
> {
    match validate_outcome(secret, token, now) {
        Ok(claims) => Ok(claims),
        Err(_) => Err(AppError::Unauthorized),
    }
}

/// Result of the guard for a request with the authorization header
/// `authorization`, if it has one, at `now`.
pub open spec fn authenticate_outcome(
    secret: Seq<char>,
    authorization: Option<Seq<char>>,
    now: u64,
) -> Result<ClaimsView, AppError> {
    match authorization {
        Some(header) => match bearer_of(header) {
            Some(token) => guard_outcome(secret, token, now),
            None => Err(AppError::Unauthorized),
        },
        None => Err(AppError::Unauthorized),
    }
}

/// Extracts the token from an authorization header.
pub fn bearer_token(header: &str) -> (token: Option<&str>)
    ensures
        slice_option(token) == bearer_of(header@),
{
    let n = header.unicode_len();
    if n < 8 {
        return None;
    }
    let scheme = header.substring_char(0, 7);
    if same_text(scheme, BEARER_PREFIX) {
        Some(header.substring_char(7, n))
    } else {
        None
    }
}

/// Turns the token service's answer into the guard's: any failure of
/// validation rejects the request as `Unauthorized`.
pub fn guard_decision(validated: Result<Claims, TokenError>) -> (result: Result<Claims, AppError>)
    ensures
        match validated {
            Ok(claims) => result == Ok::<Claims, AppError>(claims),
            Err(_) => result == Err::<Claims, AppError>(AppError::Unauthorized),
        },
{
    match validated {
        Ok(claims) => Ok(claims),
        Err(_) => Err(AppError::Unauthorized),
    }
}

/// The guard for a bearer token presented at the instant `now`.
///
/// On success the claims are handed to the caller, who attaches them to the
/// request. On failure there are no claims to attach and the protected
/// operation must not run.
pub fn validator_at(config: &AuthConfig, token: &str, now: u64) -> (result: Result<
    Claims,
    AppError,
>)
    ensures
        claims_result(result) == guard_outcome(config.secret@, token@, now),
{
    guard_decision(validate(config, token, now))
}

/// Result of the guard for a token presented now, whatever the clock says:
/// an internal error where the clock cannot be read, the result of
/// [`guard_outcome`] at some instant otherwise.
pub open spec fn guards_now(
    secret: Seq<char>,
    token: Seq<char>,
    result: Result<ClaimsView, AppError>,
) -> bool {
    result == Err::<ClaimsView, AppError>(AppError::InternalError) || exists|now: u64|
        result == #[trigger] guard_outcome(secret, token, now)
}

/// The guard for a bearer token presented now.
///
/// The instant is read from the system clock, so the contract states what
/// holds whatever the clock said: the result is the one that
/// [`validator_at`] gives for some instant, or an internal error where the
/// clock stands before the epoch.
pub fn validator(config: &AuthConfig, token: &str) -> (result: Result<Claims, AppError>)
    ensures
        guards_now(config.secret@, token@, claims_result(result)),
{
    match unix_time() {
        Some(now) => validator_at(config, token, now),
        None => Err(AppError::InternalError),
    }
}

/// The guard for a request at the instant `now`, from its authorization
/// header.
///
/// A request without the header, or with one that is not of the form
/// `Bearer <token>`, is rejected before any token is looked at.
pub fn authenticate_at(
    config: &AuthConfig,
    authorization: Option<&str>,
    now: u64,
) -> (result: Result<Claims, AppError>)
    ensures
        claims_result(result) == authenticate_outcome(
            config.secret@,
            slice_option(authorization),
            now,
        ),
{
    match authorization {
        Some(header) => match bearer_token(header) {
            Some(token) => validator_at(config, token, now),
            None => Err(AppError::Unauthorized),
        },
        None => Err(AppError::Unauthorized),
    }
}

/// The guard for a request now, from its authorization header.
///
/// A request without the header, or with one that is not of the form
/// `Bearer <token>`, is rejected without a look at the clock. For a token
/// the result is that of [`validator`].
pub fn authenticate(config: &AuthConfig, authorization: Option<&str>) -> (result: Result<
    Claims,
    AppError,
>)
    ensures
        match slice_option(authorization) {
            Some(header) => match bearer_of(header) {
                Some(token) => guards_now(config.secret@, token, claims_result(result)),
                None => result == Err::<Claims, AppError>(AppError::Unauthorized),
            },
            None => result == Err::<Claims, AppError>(AppError::Unauthorized),
        },
{
    match authorization {
        Some(header) => match bearer_token(header) {
            Some(token) => validator(config, token),
            None => Err(AppError::Unauthorized),
        },
        None => Err(AppError::Unauthorized),
    }
}

/// The text sent with a rejection by the guard.
pub open spec fn rejection_text() -> Seq<char> {
    "Token tidak valid atau kadaluarsa"@
}

/// The reply sent when the guard rejects a request: 401 and a message that
/// does not say which check failed.
pub fn rejection() -> (reply: Response)
    ensures
        reply@ == (ResponseView {
            status: STATUS_UNAUTHORIZED,
            body: BodyView::Error(rejection_text()),
        }),
{
    Response {
        status: STATUS_UNAUTHORIZED,
        body: Body::Error(
            ErrorResponse { message: "Token tidak valid atau kadaluarsa".to_owned() },
        ),
    }
}

} // verus!
