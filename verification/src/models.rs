//! Records that travel between the transport, the services and the
//! persistence gateway.

use vstd::prelude::*;

verus! {

/// A stored account.
///
/// `id` is the canonical text of the identifier assigned at registration and
/// `password` is always a password hash, never the plaintext.
#[derive(Clone, Debug, PartialEq, Eq)]
pub struct User {
    pub id: String,
    pub name: String,
    pub email: String,
    pub password: String,
}

/// Mathematical value of a [`User`].
pub struct UserView {
    pub id: Seq<char>,
    pub name: Seq<char>,
    pub email: Seq<char>,
    pub password: Seq<char>,
}

impl View for User {
    type V = UserView;

    open spec fn view(&self) -> UserView {
        UserView { id: self.id@, name: self.name@, email: self.email@, password: self.password@ }
    }
}

/// Body of a registration request.
#[derive(Clone, Debug, PartialEq, Eq)]
pub struct CreateUserDto {
    pub name: String,
    pub email: String,
    pub password: String,
}

/// Body of an update request.
#[derive(Clone, Debug, PartialEq, Eq)]
pub struct UpdateUserDto {
    pub name: String,
    pub email: String,
}

/// Body of a login request.
#[derive(Clone, Debug, PartialEq, Eq)]
pub struct LoginDto {
    pub email: String,
    pub password: String,
}

/// Body of a successful login reply.
#[derive(Clone, Debug, PartialEq, Eq)]
pub struct AuthResponse {
    pub token: String,
}

/// Views of the records in `users`, in order.
pub open spec fn user_views(users: Seq<User>) -> Seq<UserView> {
    users.map_values(|u: User| u@)
}

} // verus!
