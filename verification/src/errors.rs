//! The error taxonomy, and the transport-facing reply for each error.

use vstd::prelude::*;
use crate::gateway::GatewayError;
use crate::response::{
    Body, BodyView, ErrorResponse, Response, ResponseView, STATUS_INTERNAL_SERVER_ERROR,
    STATUS_UNAUTHORIZED,
};

verus! {

/// Everything that can go wrong in a business operation.
#[derive(Clone, Debug, PartialEq, Eq)]
pub enum AppError {
    /// The persistence gateway failed for a reason other than a constraint
    /// that the operation knows how to name.
    DbError(GatewayError),
    /// No such user.
    NotFound,
    /// The email is already registered.
    Conflict,
    /// Bad credentials, or a missing, invalid or expired token.
    Unauthorized,
    /// Hashing or signing failed for a reason unrelated to the user's input.
    InternalError,
}

impl AppError {
    /// The text shown to the caller for this error.
    ///
    /// A persistence failure shows a fixed text: the gateway's diagnostic
    /// stays in the error value, for the logs.
    pub open spec fn message_text(&self) -> Seq<char> {
        match *self {
            AppError::DbError(_) => "Database error"@,
            AppError::NotFound => "User tidak ditemukan"@,
            AppError::Conflict => "Email sudah terdaftar"@,
            AppError::Unauthorized => "Email atau password salah"@,
            AppError::InternalError => "Terjadi kesalahan internal"@,
        }
    }

    /// The status sent for this error: 401 for `Unauthorized`, 500 for every
    /// other kind.
    pub open spec fn spec_status_code(&self) -> u16 {
        match *self {
            AppError::Unauthorized => STATUS_UNAUTHORIZED,
            _ => STATUS_INTERNAL_SERVER_ERROR,
        }
    }

    /// The whole reply sent for this error.
    pub open spec fn spec_error_response(&self) -> ResponseView {
        ResponseView { status: self.spec_status_code(), body: BodyView::Error(self.message_text()) }
    }

    /// The text shown to the caller for this error.
    pub fn message(&self) -> (text: String)
        ensures
            text@ == self.message_text(),
    {
        match self {
            AppError::DbError(_) => "Database error".to_owned(),
            AppError::NotFound => "User tidak ditemukan".to_owned(),
            AppError::Conflict => "Email sudah terdaftar".to_owned(),
            AppError::Unauthorized => "Email atau password salah".to_owned(),
            AppError::InternalError => "Terjadi kesalahan internal".to_owned(),
        }
    }

    /// The status sent for this error.
    #[verifier::when_used_as_spec(spec_status_code)]
    pub fn status_code(&self) -> (status: u16)
        ensures
            status == self.spec_status_code(),
    {
        match self {
            AppError::Unauthorized => STATUS_UNAUTHORIZED,
            _ => STATUS_INTERNAL_SERVER_ERROR,
        }
    }

    /// The reply sent to the caller for this error: its status
    /// and an object that carries its message.
    pub fn error_response(&self) -> (reply: Response)
        ensures
            reply@ == self.spec_error_response(),
    {
        Response {
            status: self.status_code(),
            body: Body::Error(ErrorResponse { message: self.message() }),
        }
    }
}

} // verus!
