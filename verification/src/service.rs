use vstd::prelude::*;

use crate::api;
use crate::db::ticket::{self, Status, Ticket};
use crate::db::user::{self, Role, User};
use crate::lifecycle::{self, EditTicketError, TicketOp};
use crate::view;

verus! {

/// Failure of the current-user endpoint.
#[derive(Clone, Copy, Debug, PartialEq, Eq, Structural)]
pub enum GetUserError {
    UserNotFound,
}

/// Failure of the listing endpoint; an unresolved reference names the
/// missing user.
#[derive(Clone, Copy, Debug, PartialEq, Eq, Structural)]
pub enum ListTicketsError {
    UserNotFound(user::Id),
}

/// Failure of ticket creation.  `InvalidCount` rejects a request for a
/// non-positive quantity: the requested count is a positive integer.
#[derive(Clone, Copy, Debug, PartialEq, Eq, Structural)]
pub enum AddTicketError {
    InvalidCount,
    TicketCannotBeCreated,
    UserNotFound,
}

/// Failure of the single-ticket endpoint.
#[derive(Clone, Copy, Debug, PartialEq, Eq, Structural)]
pub enum GetTicketError {
    TicketNotFound,
    UserNotFound,
}

/// Builds the response for the current-user endpoint from the
/// authenticated user's store record.
pub fn get_user_core(user: &Option<User>) -> (r: Result<api::User, GetUserError>)
    ensures
        user is None <==> r == Err::<api::User, GetUserError>(GetUserError::UserNotFound),
        *user matches Some(u) ==> r == Ok::<api::User, GetUserError>(view::summary_spec(u)),
{
    match user {
        Some(u) => Ok(view::user_summary(u)),
        None => Err(GetUserError::UserNotFound),
    }
}

/// The record stored for an accepted creation request: freshly `Requested`,
/// no price, no managers, the acting user as initiator.
pub open spec fn new_ticket_spec(
    id: ticket::Id,
    title: String,
    description: String,
    count: usize,
    initiator: user::Id,
    created_at: i64,
) -> Ticket {
    Ticket {
        id,
        title,
        description,
        status: Status::Requested,
        count,
        price: None,
        initiator,
        purchasing_manager: None,
        accounting_manager: None,
        created_at,
    }
}

/// Law: a freshly created ticket is well formed — its price and manager
/// fields agree with its `Requested` status.
pub proof fn lemma_new_ticket_well_formed(
    id: ticket::Id,
    title: String,
    description: String,
    count: usize,
    initiator: user::Id,
    created_at: i64,
)
    ensures
        lifecycle::well_formed(
            new_ticket_spec(id, title, description, count, initiator, created_at),
        ),
{
}

/// Creates a ticket on behalf of the authenticated user.  Only an initiator
/// may create tickets, and the requested quantity must be positive; the
/// caller supplies the freshly drawn id and the creation timestamp.
pub fn add_ticket_core(
    user: &Option<User>,
    title: String,
    description: String,
    count: usize,
    id: ticket::Id,
    created_at: i64,
) -> (r: Result<Ticket, AddTicketError>)
    ensures
        user is None <==> r == Err::<Ticket, AddTicketError>(AddTicketError::UserNotFound),
        (*user matches Some(u) && u.role != Role::Initiator) <==> r == Err::<
            Ticket,
            AddTicketError,
        >(AddTicketError::TicketCannotBeCreated),
        (*user matches Some(u) && u.role == Role::Initiator && count == 0) <==> r == Err::<
            Ticket,
            AddTicketError,
        >(AddTicketError::InvalidCount),
        *user matches Some(u) ==> (u.role == Role::Initiator && count >= 1 ==> r == Ok::<
            Ticket,
            AddTicketError,
        >(new_ticket_spec(id, title, description, count, u.id, created_at))),
{
    let my = match user {
        Some(u) => u,
        None => {
            return Err(AddTicketError::UserNotFound);
        },
    };
    if my.role != Role::Initiator {
        return Err(AddTicketError::TicketCannotBeCreated);
    }
    if count == 0 {
        return Err(AddTicketError::InvalidCount);
    }
    Ok(
        Ticket {
            id,
            title,
            description,
            status: Status::Requested,
            count,
            price: None,
            initiator: my.id,
            purchasing_manager: None,
            accounting_manager: None,
            created_at,
        },
    )
}

/// Runs one lifecycle operation for the edit endpoint: resolves the loaded
/// entities, applies the operation through the lifecycle engine, and hands
/// back the ticket to persist.  A guard failure reports the attempted
/// operation and leaves nothing to persist.
pub fn edit_ticket_core(user: &Option<User>, ticket: &Option<Ticket>, op: TicketOp) -> (r: Result<
    Ticket,
    EditTicketError,
>)
    ensures
        user is None <==> r == Err::<Ticket, EditTicketError>(EditTicketError::UserNotFound),
        (user is Some && ticket is None) <==> r == Err::<Ticket, EditTicketError>(
            EditTicketError::TicketNotFound,
        ),
        (user is Some && ticket is Some) ==> (r is Ok <==> lifecycle::op_allowed(
            ticket->0,
            user->0,
            op,
        )),
        (user is Some && ticket is Some && r is Ok) ==> r->Ok_0 == lifecycle::apply_spec(
            ticket->0,
            user->0,
            op,
        ),
        (user is Some && ticket is Some && r is Err) ==> r->Err_0 == lifecycle::rejection(op),
{
    let my = match user {
        Some(u) => u,
        None => {
            return Err(EditTicketError::UserNotFound);
        },
    };
    let t = match ticket {
        Some(t) => t,
        None => {
            return Err(EditTicketError::TicketNotFound);
        },
    };
    let mut updated = t.clone();
    match lifecycle::apply_op(&mut updated, my, op) {
        Ok(()) => Ok(updated),
        Err(e) => Err(e),
    }
}

/// Builds the response for the listing endpoint from one page, the shared
/// user directory and the full store's count.
pub fn list_tickets_core(page: &Vec<Ticket>, users: &Vec<User>, total_count: usize) -> (r: Result<
    api::ticket::List,
    ListTicketsError,
>)
    ensures
        r is Ok <==> view::page_first_missing(page@, users@) is None,
        r matches Ok(l) ==> l.total_count == total_count && l.tickets@.len() == page@.len() && (
        forall|i: int| 0 <= i < page@.len() ==> l.tickets@[i] == view::assemble_spec(
            page@[i],
            users@,
        )),
        r matches Err(e) ==> e == ListTicketsError::UserNotFound(
            view::page_first_missing(page@, users@)->0,
        ),
{
    match view::assemble_page(page, users, total_count) {
        Ok(l) => Ok(l),
        Err(id) => Err(ListTicketsError::UserNotFound(id)),
    }
}

/// Builds the response for the single-ticket endpoint.
pub fn get_ticket_core(ticket: &Option<Ticket>, users: &Vec<User>) -> (r: Result<
    api::Ticket,
    GetTicketError,
>)
    ensures
        ticket is None <==> r == Err::<api::Ticket, GetTicketError>(GetTicketError::TicketNotFound),
        *ticket matches Some(t) ==> (r is Ok <==> view::first_missing_ref(t, users@) is None),
        *ticket matches Some(t) ==> (r is Ok ==> r->Ok_0 == view::assemble_spec(t, users@)),
        (ticket is Some && r is Err) ==> r == Err::<api::Ticket, GetTicketError>(
            GetTicketError::UserNotFound,
        ),
{
    let t = match ticket {
        Some(t) => t,
        None => {
            return Err(GetTicketError::TicketNotFound);
        },
    };
    match view::assemble_ticket(t, users) {
        Ok(v) => Ok(v),
        Err(_) => Err(GetTicketError::UserNotFound),
    }
}

} // verus!
