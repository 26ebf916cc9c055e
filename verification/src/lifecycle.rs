use vstd::prelude::*;

use crate::db::ticket::{Status, Ticket};
use crate::db::user::{Role, User};

verus! {

/// An operation requested against one ticket.
#[derive(Debug)]
pub enum TicketOp {
    EditTitle(String),
    EditDescription(String),
    Cancel,
    Confirm(u64),
    Deny,
    MarkAsPaid,
}

/// Rejection of one ticket operation.  Each guard failure names the
/// attempted operation, so callers can render precise denial reasons;
/// `TicketNotFound` and `UserNotFound` report that an entity to operate on
/// could not be loaded at all.
#[derive(Clone, Copy, Debug, PartialEq, Eq, Structural, Hash)]
pub enum EditTicketError {
    TicketCannotBeCancelled,
    TicketCannotBeConfirmed,
    TicketCannotBeDenied,
    TicketCannotBeModified,
    TicketCannotBePaid,
    TicketNotFound,
    UserNotFound,
}

/// The guard table: whether `actor` may apply `op` to a ticket currently in
/// the state of `t`.
pub open spec fn op_allowed(t: Ticket, actor: User, op: TicketOp) -> bool {
    match op {
        TicketOp::EditTitle(_) => t.status == Status::Requested && t.initiator == actor.id,
        TicketOp::EditDescription(_) => true,
        TicketOp::Cancel => t.status == Status::Requested && t.initiator == actor.id,
        TicketOp::Confirm(_) => t.status == Status::Requested && actor.role
            == Role::PurchasingManager,
        TicketOp::Deny => t.status == Status::Requested && actor.role == Role::PurchasingManager,
        TicketOp::MarkAsPaid => t.status == Status::Confirmed && actor.role
            == Role::AccountingManager,
    }
}

/// The ticket that results from an accepted operation.
pub open spec fn apply_spec(t: Ticket, actor: User, op: TicketOp) -> Ticket {
    match op {
        TicketOp::EditTitle(title) => Ticket { title, ..t },
        TicketOp::EditDescription(description) => Ticket { description, ..t },
        TicketOp::Cancel => Ticket { status: Status::Cancelled, ..t },
        TicketOp::Confirm(price) => Ticket {
            status: Status::Confirmed,
            price: Some(price),
            purchasing_manager: Some(actor.id),
            ..t
        },
        TicketOp::Deny => Ticket {
            status: Status::Denied,
            purchasing_manager: Some(actor.id),
            ..t
        },
        TicketOp::MarkAsPaid => Ticket {
            status: Status::PaymentCompleted,
            accounting_manager: Some(actor.id),
            ..t
        },
    }
}

/// The error under which a guard failure of `op` is reported.
pub open spec fn rejection(op: TicketOp) -> EditTicketError {
    match op {
        TicketOp::EditTitle(_) => EditTicketError::TicketCannotBeModified,
        TicketOp::EditDescription(_) => EditTicketError::TicketCannotBeModified,
        TicketOp::Cancel => EditTicketError::TicketCannotBeCancelled,
        TicketOp::Confirm(_) => EditTicketError::TicketCannotBeConfirmed,
        TicketOp::Deny => EditTicketError::TicketCannotBeDenied,
        TicketOp::MarkAsPaid => EditTicketError::TicketCannotBePaid,
    }
}

/// The lifecycle engine: applies `op` to `ticket` on behalf of `actor`, or
/// rejects it.  A rejected operation leaves the ticket unchanged in every
/// field, and an accepted one lands all of its mutations together.
pub fn apply_op(ticket: &mut Ticket, actor: &User, op: TicketOp) -> (r: Result<
    (),
    EditTicketError,
>)
    ensures
        r is Ok <==> op_allowed(*old(ticket), *actor, op),
        r is Ok ==> *final(ticket) == apply_spec(*old(ticket), *actor, op),
        r is Err ==> *final(ticket) == *old(ticket),
        r is Err ==> r == Err::<(), EditTicketError>(rejection(op)),
{
    match op {
        TicketOp::EditTitle(title) => {
            if ticket.status != Status::Requested || ticket.initiator != actor.id {
                return Err(EditTicketError::TicketCannotBeModified);
            }
            ticket.title = title;
            Ok(())
        },
        TicketOp::EditDescription(description) => {
            // The description doubles as a comment channel, so it stays
            // editable throughout the ticket lifecycle, by any actor.
            ticket.description = description;
            Ok(())
        },
        TicketOp::Cancel => {
            if ticket.status != Status::Requested || ticket.initiator != actor.id {
                return Err(EditTicketError::TicketCannotBeCancelled);
            }
            ticket.status = Status::Cancelled;
            Ok(())
        },
        TicketOp::Confirm(price) => {
            if ticket.status != Status::Requested || actor.role != Role::PurchasingManager {
                return Err(EditTicketError::TicketCannotBeConfirmed);
            }
            ticket.status = Status::Confirmed;
            ticket.price = Some(price);
            ticket.purchasing_manager = Some(actor.id);
            Ok(())
        },
        TicketOp::Deny => {
            if ticket.status != Status::Requested || actor.role != Role::PurchasingManager {
                return Err(EditTicketError::TicketCannotBeDenied);
            }
            ticket.status = Status::Denied;
            ticket.purchasing_manager = Some(actor.id);
            Ok(())
        },
        TicketOp::MarkAsPaid => {
            if ticket.status != Status::Confirmed || actor.role != Role::AccountingManager {
                return Err(EditTicketError::TicketCannotBePaid);
            }
            ticket.status = Status::PaymentCompleted;
            ticket.accounting_manager = Some(actor.id);
            Ok(())
        },
    }
}

/// Every field relation the lifecycle keeps true of a stored ticket: the
/// price is set exactly in the `Confirmed` and `PaymentCompleted` statuses,
/// the purchasing manager exactly once a confirm or deny was accepted, and
/// the accounting manager exactly once the payment completed.
pub open spec fn well_formed(t: Ticket) -> bool {
    &&& (t.price is Some <==> (t.status == Status::Confirmed || t.status
        == Status::PaymentCompleted))
    &&& (t.purchasing_manager is Some <==> (t.status == Status::Confirmed || t.status
        == Status::Denied || t.status == Status::PaymentCompleted))
    &&& (t.accounting_manager is Some <==> t.status == Status::PaymentCompleted)
}

/// Law: every accepted operation preserves well-formedness; in particular a
/// ticket's price stays set exactly when its status is `Confirmed` or
/// `PaymentCompleted`.
pub proof fn lemma_well_formed_preserved(t: Ticket, actor: User, op: TicketOp)
    requires
        well_formed(t),
        op_allowed(t, actor, op),
    ensures
        well_formed(apply_spec(t, actor, op)),
{
}

/// Law: the manager fields are monotonic.  Once set, an accepted operation
/// never clears or changes them; and they become set only through the
/// operation responsible for them: a confirm or deny for the purchasing
/// manager, a completed payment for the accounting manager.
pub proof fn lemma_managers_monotonic(t: Ticket, actor: User, op: TicketOp)
    requires
        well_formed(t),
        op_allowed(t, actor, op),
    ensures
        t.purchasing_manager is Some ==> apply_spec(t, actor, op).purchasing_manager
            == t.purchasing_manager,
        t.accounting_manager is Some ==> apply_spec(t, actor, op).accounting_manager
            == t.accounting_manager,
        apply_spec(t, actor, op).purchasing_manager is Some ==> t.purchasing_manager is Some || (
        op matches TicketOp::Confirm(_)) || op == TicketOp::Deny,
        apply_spec(t, actor, op).accounting_manager is Some ==> t.accounting_manager is Some || op
            == TicketOp::MarkAsPaid,
{
}

/// Law: a payment can be recorded only against a ticket that is exactly in
/// the `Confirmed` status, and only by an accounting manager; every other
/// status rejects the operation.
pub proof fn lemma_paid_only_from_confirmed(t: Ticket, actor: User)
    ensures
        op_allowed(t, actor, TicketOp::MarkAsPaid) <==> (t.status == Status::Confirmed
            && actor.role == Role::AccountingManager),
        t.status != Status::Confirmed ==> !op_allowed(t, actor, TicketOp::MarkAsPaid),
{
}

/// Law: editing the description is allowed for every authenticated actor in
/// every status, terminal ones included, and changes nothing but the
/// description.
pub proof fn lemma_edit_description_always_allowed(t: Ticket, actor: User, description: String)
    ensures
        op_allowed(t, actor, TicketOp::EditDescription(description)),
        apply_spec(t, actor, TicketOp::EditDescription(description)) == (Ticket {
            description,
            ..t
        }),
{
}

} // verus!
