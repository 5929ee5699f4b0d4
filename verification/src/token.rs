//! Token service: issues and validates signed, time-bounded identity tokens.
//!
//! A token is a compact signed string that carries a subject and an expiry
//! instant in seconds since the Unix epoch. Signing and signature checks are
//! jsonwebtoken's (HMAC-SHA256 with a shared secret). The lifetime rules are
//! decided here, on an instant that the caller supplies: issuing and
//! validating are functions of their arguments. The clock is read for the
//! callers that have no instant of their own.

use vstd::prelude::*;
use crate::auth::{Claims, ClaimsView};
use crate::config::AuthConfig;
use crate::errors::AppError;
use crate::text::{text_option, text_result};

verus! {

/// Why a token was not accepted.
#[derive(Clone, Copy, Debug, PartialEq, Eq)]
pub enum TokenError {
    /// Malformed, wrongly signed, or without a subject and an expiry that
    /// the claims can hold.
    InvalidToken,
    /// Well signed, but its expiry instant is not in the future.
    ExpiredToken,
}

/// The token that `jsonwebtoken::encode` produces for the claims
/// `{sub: subject, exp: expiry}` under the default header and `secret`, or
/// `None` where it reports an error.
pub uninterp spec fn signed_token(subject: Seq<char>, expiry: u64, secret: Seq<char>) -> Option<
    Seq<char>,
>;

/// The subject and expiry that `jsonwebtoken::decode` reads from `token`
/// when it checks the signature against `secret` and leaves the expiry
/// unchecked, or `None` where it rejects the token or the payload lacks a
/// textual `sub` or a non-negative whole `exp`.
pub uninterp spec fn token_claims(token: Seq<char>, secret: Seq<char>) -> Option<(Seq<char>, u64)>;

/// Calls `jsonwebtoken::encode` on the claims `sub` and `exp` with the
/// default header (HS256) and the secret as HMAC key.
///
/// Trusted: the token depends on the subject, the expiry and the secret
/// alone, and is the one that [`signed_token`] names. A token that comes
/// back is one that `jsonwebtoken::decode` reads, under the same secret, as
/// exactly these claims: decoding recomputes the same signature over the
/// same header and payload, and parses the payload that was written.
#[verifier::external_body]
fn jwt_encode(subject: &str, expiry: u64, secret: &str) -> (token: Option<String>)
    ensures
        text_option(token) == signed_token(subject@, expiry, secret@),
        token matches Some(signed) ==> token_claims(signed@, secret@) == Some((subject@, expiry)),
{
    let mut claims = serde_json::Map::new();
    claims.insert("sub".to_owned(), serde_json::Value::from(subject));
    claims.insert("exp".to_owned(), serde_json::Value::from(expiry));
    let key = jsonwebtoken::EncodingKey::from_secret(secret.as_bytes());
    jsonwebtoken::encode(&jsonwebtoken::Header::default(), &claims, &key).ok()
}

/// Calls `jsonwebtoken::decode` with the default validation (HS256), except
/// that the expiry is not compared with the clock, and hands back the `sub`
/// and `exp` of the payload.
///
/// Trusted: the answer depends on the token and the secret alone, and is the
/// one that [`token_claims`] names.
#[verifier::external_body]
fn jwt_decode(token: &str, secret: &str) -> (claims: Option<(String, u64)>)
    ensures
        decoded_view(claims) == token_claims(token@, secret@),
{
    let mut validation = jsonwebtoken::Validation::default();
    validation.validate_exp = false;
    let key = jsonwebtoken::DecodingKey::from_secret(secret.as_bytes());
    let data = jsonwebtoken::decode::<serde_json::Map<String, serde_json::Value>>(
        token,
        &key,
        &validation,
    ).ok()?;
    let subject = data.claims.get("sub")?.as_str()?.to_owned();
    let expiry = data.claims.get("exp")?.as_u64()?;
    Some((subject, expiry))
}

/// `std::time::SystemTime`: an instant of the system clock, carried from
/// the reading to the subtraction of the epoch.
#[verifier::external_type_specification]
#[verifier::external_body]
pub struct ExSystemTime(std::time::SystemTime);

/// Calls `std::time::SystemTime::now`. Nothing is claimed about the instant.
#[verifier::external_body]
fn system_now() -> std::time::SystemTime {
    std::time::SystemTime::now()
}

/// Calls `SystemTime::duration_since` with the Unix epoch: the time that
/// lies between the epoch and `instant`, or `None` where the instant lies
/// before the epoch. Nothing is claimed about the value.
#[verifier::external_body]
fn since_epoch(instant: &std::time::SystemTime) -> Option<core::time::Duration> {
    instant.duration_since(std::time::UNIX_EPOCH).ok()
}

/// Calls `Duration::as_secs`: the whole seconds of `elapsed`. Nothing is
/// claimed about the value.
#[verifier::external_body]
fn whole_seconds(elapsed: &core::time::Duration) -> u64 {
    elapsed.as_secs()
}

/// The expiry instant of a token issued at `now` with lifetime `ttl`, where
/// it fits the claim's field.
pub open spec fn expiry_of(now: u64, ttl: u64) -> Option<usize> {
    if now + ttl <= usize::MAX {
        Some((now + ttl) as usize)
    } else {
        None
    }
}

/// Result of issuing when signing produced `signed`: the token, or an
/// internal error where signing failed.
pub open spec fn sign_outcome(signed: Option<Seq<char>>) -> Result<Seq<char>, AppError> {
    match signed {
        Some(token) => Ok(token),
        None => Err(AppError::InternalError),
    }
}

/// Result of issuing a token for `subject` at `now`: the token signed for
/// the subject and the expiry `now + ttl`.
pub open spec fn issue_outcome(secret: Seq<char>, ttl: u64, subject: Seq<char>, now: u64) -> Result<
    Seq<char>,
    AppError,
> {
    match expiry_of(now, ttl) {
        Some(expiry) => sign_outcome(signed_token(subject, expiry as u64, secret)),
        None => Err(AppError::InternalError),
    }
}

/// Whether `token` carries `subject` and `expiry`: decoding it under
/// `secret` yields exactly these claims.
pub open spec fn carries(
    token: Seq<char>,
    secret: Seq<char>,
    subject: Seq<char>,
    expiry: int,
) -> bool {
    token_claims(token, secret) matches Some((read_subject, read_expiry))
        && read_subject == subject && read_expiry == expiry
}

/// Result of validating at `now` a token from which `decoded` was read.
pub open spec fn claims_outcome(decoded: Option<(Seq<char>, u64)>, now: u64) -> Result<
    ClaimsView,
    TokenError,
> {
    match decoded {
        Some((subject, expiry)) => if expiry <= now {
            Err(TokenError::ExpiredToken)
        } else if expiry > usize::MAX {
            Err(TokenError::InvalidToken)
        } else {
            Ok(ClaimsView { sub: subject, exp: expiry as usize })
        },
        None => Err(TokenError::InvalidToken),
    }
}

/// Result of validating `token` at `now`.
pub open spec fn validate_outcome(secret: Seq<char>, token: Seq<char>, now: u64) -> Result<
    ClaimsView,
    TokenError,
> {
    claims_outcome(token_claims(token, secret), now)
}

/// `decoded` with the subject, if any, taken as a sequence of characters.
pub open spec fn decoded_view(decoded: Option<(String, u64)>) -> Option<(Seq<char>, u64)> {
    match decoded {
        Some((subject, expiry)) => Some((subject@, expiry)),
        None => None,
    }
}

/// `r` with the claims of an `Ok` taken as their mathematical value.
pub open spec fn claims_result<E>(r: Result<Claims, E>) -> Result<ClaimsView, E> {
    match r {
        Ok(claims) => Ok(claims@),
        Err(e) => Err(e),
    }
}

/// Reads the system clock: the seconds since the Unix epoch, or `None` where
/// the clock stands before the epoch.
pub(crate) fn unix_time() -> Option<u64> {
    let instant = system_now();
    match since_epoch(&instant) {
        Some(elapsed) => Some(whole_seconds(&elapsed)),
        None => None,
    }
}

/// The instant at which a token issued at `now` with lifetime `ttl` expires:
/// `now + ttl`, or `None` where that does not fit the claim's field.
pub fn expiry(now: u64, ttl: u64) -> (instant: Option<usize>)
    ensures
        instant == expiry_of(now, ttl),
{
    match now.checked_add(ttl) {
        Some(sum) => {
            if sum <= usize::MAX as u64 {
                Some(sum as usize)
            } else {
                None
            }
        },
        None => None,
    }
}

/// Judges what signing produced: a failure to sign is an internal error.
pub fn accept_token(signed: Option<String>) -> (result: Result<String, AppError>)
    ensures
        text_result(result) == sign_outcome(text_option(signed)),
        result matches Ok(token) ==> signed == Some(token),
{
    match signed {
        Some(token) => Ok(token),
        None => Err(AppError::InternalError),
    }
}

/// Issues a token for `subject` at the instant `now`.
///
/// The claims are the subject and the expiry `now + config.token_ttl`; they
/// are signed with `config.secret`. Issuing succeeds whenever the expiry
/// fits and signing succeeds, and a token that comes back is one that the
/// same secret decodes to exactly these claims.
pub fn issue(config: &AuthConfig, subject: &str, now: u64) -> (result: Result<String, AppError>)
    ensures
        text_result(result) == issue_outcome(config.secret@, config.token_ttl, subject@, now),
        result matches Ok(token) ==> carries(
            token@,
            config.secret@,
            subject@,
            now + config.token_ttl,
        ),
{
    match expiry(now, config.token_ttl) {
        Some(instant) => accept_token(jwt_encode(subject, instant as u64, config.secret.as_str())),
        None => Err(AppError::InternalError),
    }
}

/// Judges the claims read from a token at the instant `now`.
///
/// `decoded` is the subject and expiry of a token whose signature held, or
/// `None` for a token that was rejected. Claims are accepted only while the
/// expiry is strictly in the future.
pub fn check_claims(decoded: Option<(String, u64)>, now: u64) -> (result: Result<
    Claims,
    TokenError,
>)
    ensures
        claims_result(result) == claims_outcome(decoded_view(decoded), now),
{
    match decoded {
        Some((subject, expiry)) => {
            if expiry <= now {
                Err(TokenError::ExpiredToken)
            } else if expiry > usize::MAX as u64 {
                Err(TokenError::InvalidToken)
            } else {
                Ok(Claims { sub: subject, exp: expiry as usize })
            }
        },
        None => Err(TokenError::InvalidToken),
    }
}

/// Validates `token` at the instant `now`: the signature against
/// `config.secret`, then the expiry against `now`.
pub fn validate(config: &AuthConfig, token: &str, now: u64) -> (result: Result<Claims, TokenError>)
    ensures
        claims_result(result) == validate_outcome(config.secret@, token@, now),
{
    check_claims(jwt_decode(token, config.secret.as_str()), now)
}

} // verus!
