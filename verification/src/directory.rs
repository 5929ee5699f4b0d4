//! A model of the user store behind the persistence gateway, and the laws
//! that the services obey over it.
//!
//! The store itself is out of this crate's hands. What the services rely on
//! is written down here as a mathematical model: the records that the store
//! holds, how each request changes them, and what a gateway answers when the
//! exchange itself does not fail. The laws below are proved of the services'
//! outcome functions over every state of that model.

use vstd::prelude::*;
use crate::auth::{authenticate_outcome, bearer_of, guard_outcome, ClaimsView};
use crate::errors::AppError;
use crate::gateway::GatewayError;
use crate::models::{User, UserView};
use crate::password::bcrypt_verdict;
use crate::services::{
    delete_outcome, issued_at, listing_outcome, login_outcome, logs_in_at, registration_outcome,
    update_outcome,
};
use crate::token::{carries, signed_token, token_claims, validate_outcome, TokenError};

verus! {

/// The records that the store holds, by identifier.
pub struct Directory {
    pub users: Map<Seq<char>, UserView>,
}

impl Directory {
    /// The store without any record.
    pub open spec fn empty() -> Directory {
        Directory { users: Map::empty() }
    }

    /// Whether a record with this identifier is stored.
    pub open spec fn has_id(self, id: Seq<char>) -> bool {
        self.users.dom().contains(id)
    }

    /// Whether a record with this email is stored.
    pub open spec fn has_email(self, email: Seq<char>) -> bool {
        exists|id: Seq<char>|
            self.users.dom().contains(id) && (#[trigger] self.users[id]).email == email
    }

    /// Whether a record other than the one with identifier `id` has this
    /// email.
    pub open spec fn email_of_another(self, id: Seq<char>, email: Seq<char>) -> bool {
        exists|other: Seq<char>|
            other != id && self.users.dom().contains(other) && (#[trigger] self.users[other]).email
                == email
    }

    /// Whether `user` is stored as it stands.
    pub open spec fn holds(self, user: UserView) -> bool {
        self.users.dom().contains(user.id) && self.users[user.id] == user
    }

    /// The store's constraints: every record is filed under its own
    /// identifier, and no two records share an email.
    pub open spec fn wf(self) -> bool {
        &&& forall|id: Seq<char>|
            self.users.dom().contains(id) ==> (#[trigger] self.users[id]).id == id
        &&& forall|a: Seq<char>, b: Seq<char>|
            self.users.dom().contains(a) && self.users.dom().contains(b)
                && (#[trigger] self.users[a]).email == (#[trigger] self.users[b]).email ==> a == b
    }

    /// Whether the store's constraints let `user` in: neither its identifier
    /// nor its email is taken.
    pub open spec fn accepts(self, user: UserView) -> bool {
        !self.has_id(user.id) && !self.has_email(user.email)
    }

    /// The store after a request to insert `user`: with the record where the
    /// constraints let it in, unchanged where they do not.
    pub open spec fn after_insert(self, user: UserView) -> Directory {
        if self.accepts(user) {
            Directory { users: self.users.insert(user.id, user) }
        } else {
            self
        }
    }

    /// Whether an update of the record `id` to `email` goes through: the
    /// record exists and no other record has the email.
    pub open spec fn allows_update(self, id: Seq<char>, email: Seq<char>) -> bool {
        self.has_id(id) && !self.email_of_another(id, email)
    }

    /// The store after a request to set name and email of the record `id`.
    /// Identifier and password hash of the record stay as they are.
    pub open spec fn after_update(
        self,
        id: Seq<char>,
        name: Seq<char>,
        email: Seq<char>,
    ) -> Directory {
        if self.allows_update(id, email) {
            Directory {
                users: self.users.insert(
                    id,
                    UserView {
                        id: id,
                        name: name,
                        email: email,
                        password: self.users[id].password,
                    },
                ),
            }
        } else {
            self
        }
    }

    /// The store after a request to delete the record `id`.
    pub open spec fn after_delete(self, id: Seq<char>) -> Directory {
        Directory { users: self.users.remove(id) }
    }

    /// Whether `stored` is a gateway's answer to the insert of `user`:
    /// success where the constraints let the record in, the duplicate-key
    /// signal where they do not.
    pub open spec fn answers_insert(
        self,
        user: UserView,
        stored: Result<(), GatewayError>,
    ) -> bool {
        match stored {
            Ok(_) => self.accepts(user),
            Err(failure) => !self.accepts(user) && failure.spec_is_duplicate_key(),
        }
    }

    /// Whether `found` is a gateway's answer to the lookup of `email`: the
    /// stored record with that email, or none where no record has it.
    pub open spec fn answers_find(
        self,
        email: Seq<char>,
        found: Result<Option<User>, GatewayError>,
    ) -> bool {
        match found {
            Ok(Some(user)) => self.holds(user@) && user@.email == email,
            Ok(None) => !self.has_email(email),
            Err(_) => false,
        }
    }

    /// Whether `listed` is a gateway's answer to the listing: every stored
    /// record and nothing else.
    pub open spec fn answers_list(self, listed: Result<Vec<User>, GatewayError>) -> bool {
        match listed {
            Ok(users) => {
                &&& forall|i: int| 0 <= i < users@.len() ==> self.holds(#[trigger] users@[i]@)
                &&& forall|id: Seq<char>|
                    self.users.dom().contains(id) ==> exists|i: int|
                        0 <= i < users@.len() && #[trigger] users@[i]@ == self.users[id]
            },
            Err(_) => false,
        }
    }

    /// Whether `outcome` is a gateway's answer to the update of the record
    /// `id`: no affected row where the record is missing, the duplicate-key
    /// signal where another record has the email, one affected row
    /// otherwise.
    pub open spec fn answers_update(
        self,
        id: Seq<char>,
        email: Seq<char>,
        outcome: Result<u64, GatewayError>,
    ) -> bool {
        match outcome {
            Ok(rows) => if self.has_id(id) {
                rows == 1 && !self.email_of_another(id, email)
            } else {
                rows == 0
            },
            Err(failure) => self.has_id(id) && self.email_of_another(id, email)
                && failure.spec_is_duplicate_key(),
        }
    }

    /// Whether `outcome` is a gateway's answer to the delete of the record
    /// `id`: one affected row where the record exists, none where it does
    /// not.
    pub open spec fn answers_delete(
        self,
        id: Seq<char>,
        outcome: Result<u64, GatewayError>,
    ) -> bool {
        match outcome {
            Ok(rows) => rows == (if self.has_id(id) {
                1u64
            } else {
                0u64
            }),
            Err(_) => false,
        }
    }
}

/// Every request leaves the store's constraints in force, and an update
/// never changes a record's identifier or password hash.
pub proof fn law_constraints_are_kept(
    dir: Directory,
    user: UserView,
    id: Seq<char>,
    name: Seq<char>,
    email: Seq<char>,
)
    requires
        dir.wf(),
    ensures
        Directory::empty().wf(),
        dir.after_insert(user).wf(),
        dir.after_update(id, name, email).wf(),
        dir.after_delete(id).wf(),
        dir.has_id(id) ==> dir.after_update(id, name, email).has_id(id) && dir.after_update(
            id,
            name,
            email,
        ).users[id].id == id && dir.after_update(id, name, email).users[id].password
            == dir.users[id].password,
{
    let inserted = dir.after_insert(user);
    assert(inserted.wf()) by {
        if dir.accepts(user) {
            assert forall|a: Seq<char>, b: Seq<char>|
                inserted.users.dom().contains(a) && inserted.users.dom().contains(b)
                    && (#[trigger] inserted.users[a]).email
                    == (#[trigger] inserted.users[b]).email implies a == b by {
                if a == user.id && b != user.id {
                    assert(dir.users[b].email == user.email);
                }
                if b == user.id && a != user.id {
                    assert(dir.users[a].email == user.email);
                }
            }
        }
    }
    let updated = dir.after_update(id, name, email);
    assert(updated.wf()) by {
        if dir.allows_update(id, email) {
            assert forall|a: Seq<char>, b: Seq<char>|
                updated.users.dom().contains(a) && updated.users.dom().contains(b)
                    && (#[trigger] updated.users[a]).email
                    == (#[trigger] updated.users[b]).email implies a == b by {
                if a == id && b != id {
                    assert(dir.users[b].email == email);
                }
                if b == id && a != id {
                    assert(dir.users[a].email == email);
                }
            }
        }
    }
}

/// A registration with an email and an identifier that are both new
/// succeeds, and the record is stored as it was submitted.
pub proof fn law_fresh_registration_succeeds(
    dir: Directory,
    user: UserView,
    stored: Result<(), GatewayError>,
)
    requires
        dir.wf(),
        dir.accepts(user),
        dir.answers_insert(user, stored),
    ensures
        registration_outcome(stored) == Ok::<(), AppError>(()),
        dir.after_insert(user).holds(user),
        dir.after_insert(user).has_email(user.email),
{
    let after = dir.after_insert(user);
    assert(after.users.dom().contains(user.id) && after.users[user.id].email == user.email);
}

/// Once an email is registered, every further registration with that email
/// is a `Conflict` and leaves the store as it was, however often it is
/// tried.
pub proof fn law_repeated_registration_conflicts(
    dir: Directory,
    first: UserView,
    second: UserView,
    third: UserView,
    second_stored: Result<(), GatewayError>,
    third_stored: Result<(), GatewayError>,
)
    requires
        dir.wf(),
        dir.accepts(first),
        second.email == first.email,
        third.email == first.email,
        dir.after_insert(first).answers_insert(second, second_stored),
        dir.after_insert(first).after_insert(second).answers_insert(third, third_stored),
    ensures
        registration_outcome(second_stored) == Err::<(), AppError>(AppError::Conflict),
        dir.after_insert(first).after_insert(second) == dir.after_insert(first),
        registration_outcome(third_stored) == Err::<(), AppError>(AppError::Conflict),
{
    let once = dir.after_insert(first);
    assert(once.users.dom().contains(first.id) && once.users[first.id].email == first.email);
    assert(once.has_email(second.email));
    assert(once.has_email(third.email));
}

/// A registration with an email that is already stored is a `Conflict`.
pub proof fn law_taken_email_conflicts(
    dir: Directory,
    user: UserView,
    stored: Result<(), GatewayError>,
)
    requires
        dir.has_email(user.email),
        dir.answers_insert(user, stored),
    ensures
        registration_outcome(stored) == Err::<(), AppError>(AppError::Conflict),
        dir.after_insert(user) == dir,
{
}

/// A login with an email that no record has is `NotFound`, whatever the
/// password.
pub proof fn law_login_with_unknown_email(
    dir: Directory,
    secret: Seq<char>,
    ttl: u64,
    email: Seq<char>,
    password: Seq<char>,
    found: Result<Option<User>, GatewayError>,
    now: u64,
)
    requires
        !dir.has_email(email),
        dir.answers_find(email, found),
    ensures
        login_outcome(secret, ttl, password, found, now) == Err::<Seq<char>, AppError>(
            AppError::NotFound,
        ),
{
    match found {
        Ok(Some(user)) => {
            assert(dir.users.dom().contains(user@.id) && dir.users[user@.id].email == email);
        },
        _ => {},
    }
}

/// A login with a password that does not match the stored hash is
/// `Unauthorized`.
pub proof fn law_login_with_wrong_password(
    dir: Directory,
    secret: Seq<char>,
    ttl: u64,
    email: Seq<char>,
    password: Seq<char>,
    found: Result<Option<User>, GatewayError>,
    now: u64,
)
    requires
        dir.answers_find(email, found),
        found matches Ok(Some(user)) && bcrypt_verdict(password, user.password@) == Some(false),
    ensures
        login_outcome(secret, ttl, password, found, now) == Err::<Seq<char>, AppError>(
            AppError::Unauthorized,
        ),
{
}

/// A login with the password that the stored hash verifies succeeds
/// whenever the expiry fits and signing succeeds, and hands out the token
/// signed for the looked-up email and the expiry `now + ttl`.
pub proof fn law_login_with_correct_password(
    dir: Directory,
    secret: Seq<char>,
    ttl: u64,
    email: Seq<char>,
    password: Seq<char>,
    found: Result<Option<User>, GatewayError>,
    now: u64,
    token: Seq<char>,
)
    requires
        dir.answers_find(email, found),
        found matches Ok(Some(user)) && bcrypt_verdict(password, user.password@) == Some(true),
        now + ttl <= usize::MAX,
        signed_token(email, (now + ttl) as u64, secret) == Some(token),
    ensures
        login_outcome(secret, ttl, password, found, now) == Ok::<Seq<char>, AppError>(token),
{
}

/// A token that a login hands out decodes, under the same secret, to the
/// email that was looked up and to an expiry later than the instant of the
/// login, and it validates at every instant before that expiry.
///
/// The lifetime must not be zero: a token of no lifetime expires at the
/// instant it is issued.
pub proof fn law_login_token_carries_email(
    dir: Directory,
    secret: Seq<char>,
    ttl: u64,
    email: Seq<char>,
    password: Seq<char>,
    found: Result<Option<User>, GatewayError>,
    now: u64,
    token: Seq<char>,
    at: u64,
)
    requires
        ttl > 0,
        dir.answers_find(email, found),
        logs_in_at(secret, ttl, password, found, now, Ok(token)),
    ensures
        found matches Ok(Some(user)) && bcrypt_verdict(password, user.password@) == Some(true),
        now + ttl <= usize::MAX,
        token_claims(token, secret) == Some((email, (now + ttl) as u64)),
        now < now + ttl,
        now <= at < now + ttl ==> validate_outcome(secret, token, at) == Ok::<
            ClaimsView,
            TokenError,
        >(ClaimsView { sub: email, exp: (now + ttl) as usize }),
{
}

/// A token lives exactly until its expiry: validated before the expiry it
/// carries it yields its claims, validated at or after that instant it
/// yields `ExpiredToken`.
pub proof fn law_token_lifetime(
    secret: Seq<char>,
    token: Seq<char>,
    subject: Seq<char>,
    expiry: usize,
    at: u64,
)
    requires
        carries(token, secret, subject, expiry as int),
    ensures
        validate_outcome(secret, token, at) == if at < expiry {
            Ok::<ClaimsView, TokenError>(ClaimsView { sub: subject, exp: expiry })
        } else {
            Err(TokenError::ExpiredToken)
        },
{
}

/// A token that was issued at `now` with lifetime `ttl` validates at every
/// instant from `now` until just before `now + ttl`, and at no later one.
pub proof fn law_issued_token_lifetime(
    secret: Seq<char>,
    ttl: u64,
    subject: Seq<char>,
    now: u64,
    token: Seq<char>,
    at: u64,
)
    requires
        issued_at(secret, ttl, subject, now, Ok(token)),
    ensures
        now + ttl <= usize::MAX,
        validate_outcome(secret, token, at) == if at < now + ttl {
            Ok::<ClaimsView, TokenError>(ClaimsView { sub: subject, exp: (now + ttl) as usize })
        } else {
            Err(TokenError::ExpiredToken)
        },
{
}

/// A token whose expiry is not in the future yields `ExpiredToken`, and the
/// guard rejects it as `Unauthorized`: it hands no claims on, whether it was
/// given the token itself or the header that carries it.
pub proof fn law_expired_token_is_rejected(
    secret: Seq<char>,
    header: Seq<char>,
    token: Seq<char>,
    subject: Seq<char>,
    expiry: u64,
    now: u64,
)
    requires
        token_claims(token, secret) == Some((subject, expiry)),
        expiry <= now,
        bearer_of(header) == Some(token),
    ensures
        validate_outcome(secret, token, now) == Err::<ClaimsView, TokenError>(
            TokenError::ExpiredToken,
        ),
        guard_outcome(secret, token, now) == Err::<ClaimsView, AppError>(AppError::Unauthorized),
        authenticate_outcome(secret, Some(header), now) == Err::<ClaimsView, AppError>(
            AppError::Unauthorized,
        ),
{
}

/// A request without an authorization header is rejected as `Unauthorized`,
/// whatever the secret and the instant.
pub proof fn law_missing_header_is_rejected(secret: Seq<char>, now: u64)
    ensures
        authenticate_outcome(secret, None, now) == Err::<ClaimsView, AppError>(
            AppError::Unauthorized,
        ),
{
}

/// An update or a delete of an identifier that no record has is `NotFound`
/// and leaves the store as it was.
pub proof fn law_unknown_id_is_not_found(
    dir: Directory,
    id: Seq<char>,
    name: Seq<char>,
    email: Seq<char>,
    updated: Result<u64, GatewayError>,
    deleted: Result<u64, GatewayError>,
)
    requires
        !dir.has_id(id),
        dir.answers_update(id, email, updated),
        dir.answers_delete(id, deleted),
    ensures
        update_outcome(updated) == Err::<bool, AppError>(AppError::NotFound),
        delete_outcome(deleted) == Err::<u64, AppError>(AppError::NotFound),
        dir.after_update(id, name, email) == dir,
        dir.after_delete(id) == dir,
{
    assert(dir.after_delete(id).users =~= dir.users);
}

/// A delete of a stored record succeeds once: the first delete reports one
/// row and removes the record, and a second delete of the same identifier is
/// `NotFound`.
pub proof fn law_delete_succeeds_once(
    dir: Directory,
    id: Seq<char>,
    first: Result<u64, GatewayError>,
    second: Result<u64, GatewayError>,
)
    requires
        dir.has_id(id),
        dir.answers_delete(id, first),
        dir.after_delete(id).answers_delete(id, second),
    ensures
        delete_outcome(first) == Ok::<u64, AppError>(1),
        !dir.after_delete(id).has_id(id),
        delete_outcome(second) == Err::<u64, AppError>(AppError::NotFound),
{
}

/// An update of a stored record to an email that no other record has
/// succeeds and is seen by the next lookup of that email.
pub proof fn law_update_of_stored_record(
    dir: Directory,
    id: Seq<char>,
    name: Seq<char>,
    email: Seq<char>,
    updated: Result<u64, GatewayError>,
)
    requires
        dir.wf(),
        dir.allows_update(id, email),
        dir.answers_update(id, email, updated),
    ensures
        update_outcome(updated) == Ok::<bool, AppError>(true),
        dir.after_update(id, name, email).has_email(email),
        dir.after_update(id, name, email).users[id].name == name,
{
    let after = dir.after_update(id, name, email);
    assert(after.users.dom().contains(id) && after.users[id].email == email);
}

/// An update of a stored record to an email that another record has is a
/// `Conflict`, as at registration, and leaves the store as it was: the
/// record keeps its old name and email.
pub proof fn law_update_to_taken_email_conflicts(
    dir: Directory,
    id: Seq<char>,
    name: Seq<char>,
    email: Seq<char>,
    updated: Result<u64, GatewayError>,
)
    requires
        dir.has_id(id),
        dir.email_of_another(id, email),
        dir.answers_update(id, email, updated),
    ensures
        update_outcome(updated) == Err::<bool, AppError>(AppError::Conflict),
        dir.after_update(id, name, email) == dir,
{
}

/// A listing hands on every stored record: a registered email is found in
/// it.
pub proof fn law_listing_shows_registered_email(
    dir: Directory,
    email: Seq<char>,
    listed: Result<Vec<User>, GatewayError>,
)
    requires
        dir.has_email(email),
        dir.answers_list(listed),
    ensures
        listing_outcome(listed) matches Ok(users) && exists|i: int|
            0 <= i < users@.len() && (#[trigger] users@[i]@).email == email,
{
    let id = choose|id: Seq<char>|
        dir.users.dom().contains(id) && (#[trigger] dir.users[id]).email == email;
    let users = listed->Ok_0;
    let i = choose|i: int| 0 <= i < users@.len() && #[trigger] users@[i]@ == dir.users[id];
    assert(0 <= i < users@.len() && users@[i]@.email == email);
    assert(listing_outcome(listed) matches Ok(same) && same == users);
}

} // verus!
