//! Request handlers, as decisions: from the gateway's answer to the reply.
//!
//! Each handler applies its service to the answer that the caller got from
//! the persistence gateway and picks the reply for a success. Failures come
//! back as errors; [`respond`] turns either into what is sent.

use vstd::prelude::*;
use crate::config::AuthConfig;
use crate::errors::AppError;
use crate::gateway::GatewayError;
use crate::models::{AuthResponse, LoginDto, User};
use crate::response::{
    Body, BodyView, Response, ResponseView, STATUS_CREATED, STATUS_NO_CONTENT, STATUS_OK,
};
use crate::services::{logs_in_now, UserService};
use crate::text::text_result;

verus! {

/// The text sent after a successful registration.
pub open spec fn created_text() -> Seq<char> {
    "User berhasil dibuat"@
}

/// The text sent after a successful update.
pub open spec fn updated_text() -> Seq<char> {
    "User berhasil diperbarui"@
}

/// `r` with the reply of an `Ok` taken as its mathematical value.
pub open spec fn reply_result(r: Result<Response, AppError>) -> Result<ResponseView, AppError> {
    match r {
        Ok(reply) => Ok(reply@),
        Err(error) => Err(error),
    }
}

/// Reply to a login whose service result was `issued`: 200 with the token.
pub open spec fn login_reply(issued: Result<Seq<char>, AppError>) -> Result<
    ResponseView,
    AppError,
> {
    match issued {
        Ok(token) => Ok(ResponseView { status: STATUS_OK, body: BodyView::Token(token) }),
        Err(error) => Err(error),
    }
}

/// What is sent for `result`: the reply itself, or the reply that stands
/// for the error.
pub open spec fn respond_view(result: Result<Response, AppError>) -> ResponseView {
    match result {
        Ok(reply) => reply@,
        Err(error) => error.spec_error_response(),
    }
}

/// `GET /api/users`: 200 with every stored user.
pub fn get_users(listed: Result<Vec<User>, GatewayError>) -> (result: Result<Response, AppError>)
    ensures
        result == match listed {
            Ok(users) => Ok::<Response, AppError>(
                Response { status: STATUS_OK, body: Body::Users(users) },
            ),
            Err(failure) => Err(AppError::DbError(failure)),
        },
{
    match UserService::fetch_all(listed) {
        Ok(users) => Ok(Response { status: STATUS_OK, body: Body::Users(users) }),
        Err(error) => Err(error),
    }
}

/// `PUT /api/users/{id}`: 200 with a message, `NotFound` where the update
/// affected no row, `Conflict` where the new email belongs to another user.
pub fn update_user(outcome: Result<u64, GatewayError>) -> (result: Result<Response, AppError>)
    ensures
        reply_result(result) == match outcome {
            Ok(rows) => if rows == 0 {
                Err::<ResponseView, AppError>(AppError::NotFound)
            } else {
                Ok(ResponseView { status: STATUS_OK, body: BodyView::Text(updated_text()) })
            },
            Err(failure) => if failure.spec_is_duplicate_key() {
                Err(AppError::Conflict)
            } else {
                Err(AppError::DbError(failure))
            },
        },
{
    match UserService::update(outcome) {
        Ok(updated) => {
            if updated == false {
                Err(AppError::NotFound)
            } else {
                Ok(
                    Response {
                        status: STATUS_OK,
                        body: Body::Text("User berhasil diperbarui".to_owned()),
                    },
                )
            }
        },
        Err(error) => Err(error),
    }
}

/// `DELETE /api/users/{id}`: 204 without a body, or `NotFound` where the
/// delete affected no row.
pub fn delete_user(outcome: Result<u64, GatewayError>) -> (result: Result<Response, AppError>)
    ensures
        result == match outcome {
            Ok(rows) => if rows == 0 {
                Err::<Response, AppError>(AppError::NotFound)
            } else {
                Ok(Response { status: STATUS_NO_CONTENT, body: Body::Empty })
            },
            Err(failure) => Err(AppError::DbError(failure)),
        },
{
    match UserService::delete(outcome) {
        Ok(rows) => {
            if rows == 0 {
                Err(AppError::NotFound)
            } else {
                Ok(Response { status: STATUS_NO_CONTENT, body: Body::Empty })
            }
        },
        Err(error) => Err(error),
    }
}

/// Reply to a login, from the result of the login service: 200 with the
/// token.
pub fn logged_in(issued: Result<String, AppError>) -> (result: Result<Response, AppError>)
    ensures
        reply_result(result) == login_reply(text_result(issued)),
{
    match issued {
        Ok(token) => Ok(
            Response { status: STATUS_OK, body: Body::Token(AuthResponse { token: token }) },
        ),
        Err(error) => Err(error),
    }
}

/// `POST /login`, given what the gateway found for the email of `body`.
///
/// The service reads the system clock, so the contract states what holds
/// whatever the clock said: the reply is the one for some result that a
/// login now may have.
pub fn login(
    config: &AuthConfig,
    body: LoginDto,
    found: Result<Option<User>, GatewayError>,
) -> (result: Result<Response, AppError>)
    ensures
        exists|issued: Result<Seq<char>, AppError>|
            logs_in_now(config.secret@, config.token_ttl, body.password@, found, issued)
                && reply_result(result) == #[trigger] login_reply(issued),
{
    let issued = UserService::login(config, body, found);
    let ghost outcome = text_result(issued);
    let reply = logged_in(issued);
    assert(reply_result(reply) == login_reply(outcome));
    reply
}

/// `POST /register`, given the gateway's answer to the insert: 201 with a
/// message.
pub fn register(stored: Result<(), GatewayError>) -> (result: Result<Response, AppError>)
    ensures
        reply_result(result) == match stored {
            Ok(_) => Ok::<ResponseView, AppError>(
                ResponseView { status: STATUS_CREATED, body: BodyView::Text(created_text()) },
            ),
            Err(failure) => if failure.spec_is_duplicate_key() {
                Err(AppError::Conflict)
            } else {
                Err(AppError::DbError(failure))
            },
        },
{
    match UserService::confirm_registration(stored) {
        Ok(_) => Ok(
            Response {
                status: STATUS_CREATED,
                body: Body::Text("User berhasil dibuat".to_owned()),
            },
        ),
        Err(error) => Err(error),
    }
}

/// What is sent for the result of a handler: the reply of a success as it
/// is, an error as the reply that stands for it.
pub fn respond(result: Result<Response, AppError>) -> (reply: Response)
    ensures
        reply@ == respond_view(result),
{
    match result {
        Ok(reply) => reply,
        Err(error) => error.error_response(),
    }
}

} // verus!
