use vstd::prelude::*;

pub use crate::db::user::{Id, PasswordHash, Role};

verus! {

/// A user as exposed in responses and embedded in ticket views: the id, the
/// display name and the role — never the login or the password hash.
#[derive(Clone, Debug, PartialEq, Eq)]
pub struct User {
    pub id: Id,
    pub name: String,
    pub role: Role,
}

} // verus!
