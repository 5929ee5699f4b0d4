//! Transport-facing replies: a status and a body, as plain values.
//!
//! The caller turns a [`Response`] into whatever its HTTP layer sends: the
//! status as is, the body as JSON.

use vstd::prelude::*;
use crate::models::{user_views, AuthResponse, User, UserView};

verus! {

pub const STATUS_OK: u16 = 200;

pub const STATUS_CREATED: u16 = 201;

pub const STATUS_NO_CONTENT: u16 = 204;

pub const STATUS_UNAUTHORIZED: u16 = 401;

pub const STATUS_INTERNAL_SERVER_ERROR: u16 = 500;

/// Body of a failure reply: an object with one message.
#[derive(Clone, Debug, PartialEq, Eq)]
pub struct ErrorResponse {
    pub message: String,
}

/// What a reply carries.
#[derive(Clone, Debug, PartialEq, Eq)]
pub enum Body {
    /// Nothing at all.
    Empty,
    /// A bare message.
    Text(String),
    /// A failure, as an object with a message.
    Error(ErrorResponse),
    /// The token of a successful login.
    Token(AuthResponse),
    /// Every stored user.
    Users(Vec<User>),
}

/// A reply to one request.
#[derive(Clone, Debug, PartialEq, Eq)]
pub struct Response {
    pub status: u16,
    pub body: Body,
}

/// Mathematical value of a [`Body`].
pub enum BodyView {
    Empty,
    Text(Seq<char>),
    Error(Seq<char>),
    Token(Seq<char>),
    Users(Seq<UserView>),
}

/// Mathematical value of a [`Response`].
pub struct ResponseView {
    pub status: u16,
    pub body: BodyView,
}

impl View for Body {
    type V = BodyView;

    open spec fn view(&self) -> BodyView {
        match *self {
            Body::Empty => BodyView::Empty,
            Body::Text(text) => BodyView::Text(text@),
            Body::Error(error) => BodyView::Error(error.message@),
            Body::Token(auth) => BodyView::Token(auth.token@),
            Body::Users(users) => BodyView::Users(user_views(users@)),
        }
    }
}

impl View for Response {
    type V = ResponseView;

    open spec fn view(&self) -> ResponseView {
        ResponseView { status: self.status, body: self.body@ }
    }
}

} // verus!
