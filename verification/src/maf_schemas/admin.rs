//! Types used in the admin API.

use vstd::prelude::*;

verus! {

/// An organization as the admin API shows it.
#[derive(Debug, Clone)]
pub struct OrgAdminView {
    pub name: String,
    pub slug: String,
    pub is_default: bool,
}

/// A request to create a user.
#[derive(Debug, Clone)]
pub struct CreateUser {
    pub name: String,
    pub username: String,
}

} // verus!
