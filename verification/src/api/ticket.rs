use vstd::prelude::*;

use crate::api;

pub use crate::db::ticket::{Id, Status};

verus! {

/// A response-ready ticket aggregate: the stored record with each referenced
/// user id replaced by an embedded user summary.
#[derive(Clone, Debug)]
pub struct Ticket {
    pub id: Id,
    pub title: String,
    pub description: String,
    pub status: Status,
    pub count: usize,
    pub price: Option<u64>,
    pub initiator: api::User,
    pub purchasing_manager: Option<api::User>,
    pub accounting_manager: Option<api::User>,
}

/// One page of assembled tickets, together with the size of the full
/// unfiltered ticket set.
#[derive(Clone, Debug)]
pub struct List {
    pub tickets: Vec<Ticket>,
    pub total_count: usize,
}

} // verus!
