//! Authenticated users and the tokens their requests carry.

use vstd::prelude::*;
use crate::text::{to_owned_string, trim_start_matches, trim_start_repeated};

verus! {

/// The permission bits of a user.
#[derive(Debug, Clone, Copy, PartialEq, Eq, Structural)]
pub struct Permissions {
    bits: u64,
}

impl Permissions {
    /// No permission.
    pub fn empty() -> (p: Self)
        ensures
            p.bits() == 0,
    {
        Permissions { bits: 0 }
    }

    /// Permissions with the given bits.
    pub fn from_bits(bits: u64) -> (p: Self)
        ensures
            p.bits() == bits,
    {
        Permissions { bits }
    }

    /// The permission bits.
    pub closed spec fn bits(&self) -> u64 {
        self.bits
    }

    /// The permission bits.
    pub fn as_bits(&self) -> (bits: u64)
        ensures
            bits == self.bits(),
    {
        self.bits
    }
}

/// A user record as stored: its identifier (the 128-bit value of its UUID), name and
/// permissions.
#[derive(Debug, Clone)]
pub struct UserModel {
    pub id: u128,
    pub name: String,
    pub permissions: Permissions,
}

/// Represents an authenticated user in the system. This is extracted from the request and contains
/// the user's information, such as their ID, name, and permissions.
#[derive(Debug, Clone)]
pub struct AuthedUser {
    inner: UserModel,
}

impl AuthedUser {
    /// The user that authenticated.
    pub closed spec fn user(&self) -> UserModel {
        self.inner
    }

    /// The authenticated user `user`.
    pub fn new(user: UserModel) -> (authed: Self)
        ensures
            authed.user() == user,
    {
        AuthedUser { inner: user }
    }

    /// The user's identifier.
    pub fn id(&self) -> (id: u128)
        ensures
            id == self.user().id,
    {
        self.inner.id
    }

    /// The user's name.
    pub fn name(&self) -> (name: &str)
        ensures
            name@ == self.user().name@,
    {
        self.inner.name.as_str()
    }

    /// The user's permissions.
    pub fn permissions(&self) -> (permissions: &Permissions)
        ensures
            *permissions == self.user().permissions,
    {
        &self.inner.permissions
    }
}

/// The token of an `Authorization` header value: the value with every leading `base` removed,
/// then every leading space.
pub open spec fn authorization_token(header: Seq<char>, base: Seq<char>) -> Seq<char> {
    trim_start_repeated(trim_start_repeated(header, base), " "@)
}

/// Extracts the authorization token from the value of the `Authorization` header of a request,
/// if there is one (see [`authorization_token`]).
pub fn get_authorization(header: Option<&str>, base: &str) -> (token: Option<String>)
    ensures
        match header {
            Some(h) => token matches Some(t) && t@ == authorization_token(h@, base@),
            None => token is None,
        },
{
    match header {
        Some(h) => Some(to_owned_string(trim_start_matches(trim_start_matches(h, base), " "))),
        None => None,
    }
}

} // verus!
