//! User directory service: register, login, list, update and delete.
//!
//! Every operation is written around one exchange with the persistence
//! gateway. The caller performs the exchange; the functions here decide what
//! its answer means, in terms of the error taxonomy. A registration also
//! prepares the record that the caller sends.

use vstd::prelude::*;
use crate::config::AuthConfig;
use crate::errors::AppError;
use crate::gateway::GatewayError;
use crate::models::{CreateUserDto, LoginDto, User};
use crate::password::{bcrypt_verdict, hash, is_hash_of, verify, verify_outcome, HASH_COST};
use crate::text::{same_text, text_result};
use crate::token::{carries, issue, issue_outcome, unix_time};

verus! {

/// The business operations on the user directory.
pub struct UserService;

/// Whether `c` is a digit or one of the letters `a` to `f`.
pub open spec fn is_lower_hex(c: char) -> bool {
    ('0' <= c && c <= '9') || ('a' <= c && c <= 'f')
}

/// Shape of the canonical text of a random identifier: thirty-six
/// characters, hyphens after the eighth, twelfth, sixteenth and twentieth
/// hexadecimal digit, lower-case digits elsewhere, and the version digit 4.
pub open spec fn is_uuid_text(id: Seq<char>) -> bool {
    &&& id.len() == 36
    &&& forall|i: int|
        0 <= i < 36 ==> if i == 8 || i == 13 || i == 18 || i == 23 {
            #[trigger] id[i] == '-'
        } else {
            is_lower_hex(id[i])
        }
    &&& id[14] == '4'
}

/// Calls `uuid::Uuid::new_v4` and takes the identifier's text.
///
/// Trusted: the text has the shape that [`is_uuid_text`] describes. Nothing
/// is claimed about which identifier comes back. The call panics only where
/// the operating system cannot supply random bytes.
#[verifier::external_body]
fn fresh_id() -> (id: String)
    ensures
        is_uuid_text(id@),
{
    uuid::Uuid::new_v4().to_string()
}

/// The record to store for a registration, given the new identifier and the
/// result of hashing the password.
pub open spec fn new_user_outcome(
    id: String,
    data: CreateUserDto,
    hashed: Result<String, AppError>,
) -> Result<User, AppError> {
    match hashed {
        Ok(credential) => if credential@ == data.password@ {
            Err(AppError::InternalError)
        } else {
            Ok(User { id: id, name: data.name, email: data.email, password: credential })
        },
        Err(_) => Err(AppError::InternalError),
    }
}

/// Result of a registration, given the gateway's answer to the insert.
pub open spec fn registration_outcome(stored: Result<(), GatewayError>) -> Result<(), AppError> {
    match stored {
        Ok(_) => Ok(()),
        Err(failure) => if failure.spec_is_duplicate_key() {
            Err(AppError::Conflict)
        } else {
            Err(AppError::DbError(failure))
        },
    }
}

/// Result of an update, given the gateway's answer: the number of rows that
/// it reports as affected, or its failure.
pub open spec fn update_outcome(outcome: Result<u64, GatewayError>) -> Result<bool, AppError> {
    match outcome {
        Ok(rows) => if rows == 0 {
            Err(AppError::NotFound)
        } else {
            Ok(true)
        },
        Err(failure) => if failure.spec_is_duplicate_key() {
            Err(AppError::Conflict)
        } else {
            Err(AppError::DbError(failure))
        },
    }
}

/// Result of a delete, given the number of rows that the gateway reports as
/// affected.
pub open spec fn delete_outcome(outcome: Result<u64, GatewayError>) -> Result<u64, AppError> {
    match outcome {
        Ok(rows) => if rows == 0 {
            Err(AppError::NotFound)
        } else {
            Ok(rows)
        },
        Err(failure) => Err(AppError::DbError(failure)),
    }
}

/// Result of a listing, given what the gateway listed.
pub open spec fn listing_outcome(listed: Result<Vec<User>, GatewayError>) -> Result<
    Vec<User>,
    AppError,
> {
    match listed {
        Ok(users) => Ok(users),
        Err(failure) => Err(AppError::DbError(failure)),
    }
}

/// Result of checking `password` against what the gateway found for the
/// email: the stored user on a match.
pub open spec fn credentials_outcome(
    password: Seq<char>,
    found: Result<Option<User>, GatewayError>,
) -> Result<User, AppError> {
    match found {
        Ok(Some(user)) => match verify_outcome(bcrypt_verdict(password, user.password@)) {
            Ok(true) => Ok(user),
            Ok(false) => Err(AppError::Unauthorized),
            Err(_) => Err(AppError::InternalError),
        },
        Ok(None) => Err(AppError::NotFound),
        Err(failure) => Err(AppError::DbError(failure)),
    }
}

/// Result of a login at `now`, given what the gateway found for the email.
pub open spec fn login_outcome(
    secret: Seq<char>,
    ttl: u64,
    password: Seq<char>,
    found: Result<Option<User>, GatewayError>,
    now: u64,
) -> Result<Seq<char>, AppError> {
    match credentials_outcome(password, found) {
        Ok(user) => issue_outcome(secret, ttl, user.email@, now),
        Err(error) => Err(error),
    }
}

/// Whether `issued` is the result of issuing a token for `subject` at `now`,
/// and the token, if there is one, carries the subject and the expiry
/// `now + ttl`.
pub open spec fn issued_at(
    secret: Seq<char>,
    ttl: u64,
    subject: Seq<char>,
    now: u64,
    issued: Result<Seq<char>, AppError>,
) -> bool {
    &&& issued == issue_outcome(secret, ttl, subject, now)
    &&& issued matches Ok(token) ==> carries(token, secret, subject, now + ttl)
}

/// Whether `issued` is the result of a login at `now`, and the token, if
/// there is one, carries the stored email and the expiry `now + ttl`.
pub open spec fn logs_in_at(
    secret: Seq<char>,
    ttl: u64,
    password: Seq<char>,
    found: Result<Option<User>, GatewayError>,
    now: u64,
    issued: Result<Seq<char>, AppError>,
) -> bool {
    &&& issued == login_outcome(secret, ttl, password, found, now)
    &&& issued matches Ok(token) ==> found matches Ok(Some(user)) && carries(
        token,
        secret,
        user.email@,
        now + ttl,
    )
}

/// Result of a login now, whatever the clock says, given what the gateway
/// found for the email: the error of the credentials check where it fails;
/// otherwise an internal error where the clock cannot be read, or what
/// issuing for the stored email gives at some instant.
pub open spec fn logs_in_now(
    secret: Seq<char>,
    ttl: u64,
    password: Seq<char>,
    found: Result<Option<User>, GatewayError>,
    issued: Result<Seq<char>, AppError>,
) -> bool {
    match credentials_outcome(password, found) {
        Ok(user) => issued == Err::<Seq<char>, AppError>(AppError::InternalError)
            || exists|now: u64| #[trigger] issued_at(secret, ttl, user.email@, now, issued),
        Err(error) => issued == Err::<Seq<char>, AppError>(error),
    }
}

impl UserService {
    /// Lists every user: hands on what the gateway listed, or its failure as
    /// a persistence error.
    pub fn fetch_all(listed: Result<Vec<User>, GatewayError>) -> (result: Result<
        Vec<User>,
        AppError,
    >)
        ensures
            result == listing_outcome(listed),
    {
        match listed {
            Ok(users) => Ok(users),
            Err(failure) => Err(AppError::DbError(failure)),
        }
    }

    /// Judges the gateway's answer to an update by id, given as the number
    /// of rows it affected.
    ///
    /// No affected row means that the id is unknown. A duplicate-key signal
    /// means that the new email belongs to another user and is a `Conflict`,
    /// as at registration; every other failure is a persistence error.
    pub fn update(outcome: Result<u64, GatewayError>) -> (result: Result<bool, AppError>)
        ensures
            result == update_outcome(outcome),
    {
        match outcome {
            Ok(rows) => {
                if rows == 0 {
                    Err(AppError::NotFound)
                } else {
                    Ok(true)
                }
            },
            Err(failure) => {
                if failure.is_duplicate_key() {
                    Err(AppError::Conflict)
                } else {
                    Err(AppError::DbError(failure))
                }
            },
        }
    }

    /// Judges the gateway's answer to a delete by id, given as the number of
    /// rows it affected: no affected row means that the id is unknown.
    pub fn delete(outcome: Result<u64, GatewayError>) -> (result: Result<u64, AppError>)
        ensures
            result == delete_outcome(outcome),
    {
        match outcome {
            Ok(rows) => {
                if rows == 0 {
                    Err(AppError::NotFound)
                } else {
                    Ok(rows)
                }
            },
            Err(failure) => Err(AppError::DbError(failure)),
        }
    }

    /// Puts together the record to store for a registration, from the new
    /// identifier and the result of hashing the password.
    ///
    /// The record holds the hash, never the submitted password: a credential
    /// equal to the password is refused as an internal error. So is a failed
    /// hashing, whatever its cause.
    pub fn new_user(
        id: String,
        data: CreateUserDto,
        hashed: Result<String, AppError>,
    ) -> (result: Result<User, AppError>)
        ensures
            result == new_user_outcome(id, data, hashed),
    {
        match hashed {
            Ok(credential) => {
                if same_text(credential.as_str(), data.password.as_str()) {
                    Err(AppError::InternalError)
                } else {
                    Ok(User { id: id, name: data.name, email: data.email, password: credential })
                }
            },
            Err(_) => Err(AppError::InternalError),
        }
    }

    /// First half of a registration: assigns a new identifier, hashes the
    /// password and hands back the record that the caller inserts through
    /// the gateway.
    ///
    /// Identifier and salt are random, so the contract states what holds of
    /// every outcome. See [`UserService::new_user`] for the rule that is
    /// applied to them, and [`UserService::confirm_registration`] for the
    /// second half.
    pub fn register(data: CreateUserDto) -> (result: Result<User, AppError>)
        ensures
            match result {
                Ok(user) => {
                    &&& user.name == data.name
                    &&& user.email == data.email
                    &&& user.password@ != data.password@
                    &&& is_hash_of(user.password@, data.password@, HASH_COST)
                    &&& is_uuid_text(user.id@)
                },
                Err(error) => error == AppError::InternalError,
            },
    {
        let id = fresh_id();
        let hashed = hash(data.password.as_str());
        Self::new_user(id, data, hashed)
    }

    /// Second half of a registration: judges the gateway's answer to the
    /// insert. A duplicate-key signal is a `Conflict`, every other failure a
    /// persistence error.
    pub fn confirm_registration(stored: Result<(), GatewayError>) -> (result: Result<(), AppError>)
        ensures
            result == registration_outcome(stored),
    {
        match stored {
            Ok(_) => Ok(()),
            Err(failure) => {
                if failure.is_duplicate_key() {
                    Err(AppError::Conflict)
                } else {
                    Err(AppError::DbError(failure))
                }
            },
        }
    }

    /// Judges the gateway's answer to the lookup by email: no user is
    /// `NotFound`, a failure a persistence error.
    pub fn found_user(found: Result<Option<User>, GatewayError>) -> (result: Result<User, AppError>)
        ensures
            result == match found {
                Ok(Some(user)) => Ok::<User, AppError>(user),
                Ok(None) => Err(AppError::NotFound),
                Err(failure) => Err(AppError::DbError(failure)),
            },
    {
        match found {
            Ok(Some(user)) => Ok(user),
            Ok(None) => Err(AppError::NotFound),
            Err(failure) => Err(AppError::DbError(failure)),
        }
    }

    /// Judges the password hasher's answer at login: a mismatch is
    /// `Unauthorized`, a failed verification an internal error.
    pub fn authorize(verified: Result<bool, AppError>) -> (result: Result<(), AppError>)
        ensures
            result == match verified {
                Ok(true) => Ok::<(), AppError>(()),
                Ok(false) => Err(AppError::Unauthorized),
                Err(_) => Err(AppError::InternalError),
            },
    {
        match verified {
            Ok(true) => Ok(()),
            Ok(false) => Err(AppError::Unauthorized),
            Err(_) => Err(AppError::InternalError),
        }
    }

    /// Checks the credentials of `data` against what the gateway found for
    /// its email, and hands back the stored user on a match.
    pub fn check_credentials(
        data: &LoginDto,
        found: Result<Option<User>, GatewayError>,
    ) -> (result: Result<User, AppError>)
        ensures
            result == credentials_outcome(data.password@, found),
    {
        match Self::found_user(found) {
            Ok(user) => {
                let verified = verify(data.password.as_str(), user.password.as_str());
                match Self::authorize(verified) {
                    Ok(_) => Ok(user),
                    Err(error) => Err(error),
                }
            },
            Err(error) => Err(error),
        }
    }

    /// Login at the instant `now`, given what the gateway found for the
    /// email of `data`.
    ///
    /// The password is checked against the stored hash; on a match a token
    /// is issued whose subject is the stored email. A token that comes back
    /// decodes, under the same secret, to that email and to the expiry
    /// `now + config.token_ttl`.
    pub fn login_at(
        config: &AuthConfig,
        data: LoginDto,
        found: Result<Option<User>, GatewayError>,
        now: u64,
    ) -> (result: Result<String, AppError>)
        ensures
            logs_in_at(
                config.secret@,
                config.token_ttl,
                data.password@,
                found,
                now,
                text_result(result),
            ),
    {
        match Self::check_credentials(&data, found) {
            Ok(user) => issue(config, user.email.as_str(), now),
            Err(error) => Err(error),
        }
    }

    /// Login now, given what the gateway found for the email of `data`.
    ///
    /// The instant is read from the system clock once the credentials have
    /// been checked, so the contract states what holds whatever the clock
    /// said: see [`logs_in_now`].
    pub fn login(
        config: &AuthConfig,
        data: LoginDto,
        found: Result<Option<User>, GatewayError>,
    ) -> (result: Result<String, AppError>)
        ensures
            logs_in_now(
                config.secret@,
                config.token_ttl,
                data.password@,
                found,
                text_result(result),
            ),
    {
        match Self::check_credentials(&data, found) {
            Ok(user) => match unix_time() {
                Some(now) => {
                    let issued = issue(config, user.email.as_str(), now);
                    assert(issued_at(
                        config.secret@,
                        config.token_ttl,
                        user.email@,
                        now,
                        text_result(issued),
                    ));
                    issued
                },
                None => Err(AppError::InternalError),
            },
            Err(error) => Err(error),
        }
    }
}

} // verus!
