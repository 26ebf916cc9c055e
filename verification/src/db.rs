pub mod ticket;
pub mod user;

use vstd::prelude::*;

pub use self::ticket::Ticket;
pub use self::user::User;

verus! {

/// Relies on `uuid::Uuid::new_v4`: draws a fresh random 128-bit identifier.
/// The value is random, so nothing is promised of it.
#[verifier::external_body]
pub(crate) fn fresh_id_value() -> u128 {
    uuid::Uuid::new_v4().as_u128()
}

} // verus!
