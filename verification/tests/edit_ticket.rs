use dubna_internship::api;
use dubna_internship::db::ticket::{self, Ticket};
use dubna_internship::db::user::{Id, PasswordHash, Role, User};
use dubna_internship::lifecycle::{EditTicketError, TicketOp};
use dubna_internship::service::{add_ticket_core, edit_ticket_core, get_ticket_core};

fn actor(id: u128, name: &str, role: Role, login: &str) -> User {
    User {
        id: Id::from(id),
        name: name.to_string(),
        role,
        login: login.to_string(),
        password_hash: PasswordHash::new("password"),
    }
}

fn requested_ticket(initiator: &User) -> Ticket {
    add_ticket_core(
        &Some(initiator.clone()),
        "Ticket 1".to_string(),
        "Description 1".to_string(),
        1,
        ticket::Id::from(7),
        100,
    )
    .unwrap()
}

fn edit(actor: &User, t: &Ticket, op: TicketOp) -> Result<Ticket, EditTicketError> {
    edit_ticket_core(&Some(actor.clone()), &Some(t.clone()), op)
}

#[test]
fn edits_ticket_title() {
    let alice = actor(1, "Alice", Role::Initiator, "alice");
    let stored = requested_ticket(&alice);
    let stored = edit(&alice, &stored, TicketOp::EditTitle("Title 2".to_string())).unwrap();
    let ticket = get_ticket_core(&Some(stored), &vec![alice]).unwrap();
    assert_eq!(ticket.title, "Title 2");
    assert_eq!(ticket.description, "Description 1");
    assert_eq!(ticket.status, api::ticket::Status::Requested);
    assert_eq!(ticket.count, 1);
    assert_eq!(ticket.price, None);
    assert_eq!(ticket.initiator.id, api::user::Id::from(1));
    assert_eq!(ticket.initiator.name, "Alice");
    assert_eq!(ticket.initiator.role, api::user::Role::Initiator);
    assert_eq!(ticket.purchasing_manager, None);
    assert_eq!(ticket.accounting_manager, None);
}

#[test]
fn cant_edits_ticket_title_when_confirmed() {
    let alice = actor(1, "Alice", Role::Initiator, "alice");
    let bob = actor(2, "Bob", Role::PurchasingManager, "bob");
    let stored = requested_ticket(&alice);
    let stored = edit(&bob, &stored, TicketOp::Confirm(100)).unwrap();
    let err = edit(&alice, &stored, TicketOp::EditTitle("Title 2".to_string())).unwrap_err();
    assert_eq!(err, EditTicketError::TicketCannotBeModified);
}

#[test]
fn cant_edits_ticket_title_when_not_initiator() {
    let alice = actor(1, "Alice", Role::Initiator, "alice");
    let bob = actor(2, "Bob", Role::PurchasingManager, "bob");
    let stored = requested_ticket(&alice);
    let err = edit(&bob, &stored, TicketOp::EditTitle("Title 2".to_string())).unwrap_err();
    assert_eq!(err, EditTicketError::TicketCannotBeModified);
}

#[test]
fn edits_ticket_description() {
    let alice = actor(1, "Alice", Role::Initiator, "alice");
    let bob = actor(2, "Bob", Role::PurchasingManager, "bob");
    let stored = requested_ticket(&alice);
    let stored = edit(&bob, &stored, TicketOp::EditDescription("Description 2".to_string()))
        .unwrap();
    let ticket = get_ticket_core(&Some(stored), &vec![alice]).unwrap();
    assert_eq!(ticket.title, "Ticket 1");
    assert_eq!(ticket.description, "Description 2");
    assert_eq!(ticket.status, api::ticket::Status::Requested);
    assert_eq!(ticket.count, 1);
    assert_eq!(ticket.price, None);
    assert_eq!(ticket.initiator.id, api::user::Id::from(1));
    assert_eq!(ticket.initiator.name, "Alice");
    assert_eq!(ticket.initiator.role, api::user::Role::Initiator);
    assert_eq!(ticket.purchasing_manager, None);
    assert_eq!(ticket.accounting_manager, None);
}

#[test]
fn cancels_ticket() {
    let alice = actor(1, "Alice", Role::Initiator, "alice");
    let stored = requested_ticket(&alice);
    let stored = edit(&alice, &stored, TicketOp::Cancel).unwrap();
    let ticket = get_ticket_core(&Some(stored), &vec![alice]).unwrap();
    assert_eq!(ticket.title, "Ticket 1");
    assert_eq!(ticket.description, "Description 1");
    assert_eq!(ticket.status, api::ticket::Status::Cancelled);
    assert_eq!(ticket.count, 1);
    assert_eq!(ticket.price, None);
    assert_eq!(ticket.initiator.id, api::user::Id::from(1));
    assert_eq!(ticket.initiator.name, "Alice");
    assert_eq!(ticket.initiator.role, api::user::Role::Initiator);
    assert_eq!(ticket.purchasing_manager, None);
    assert_eq!(ticket.accounting_manager, None);
}

#[test]
fn cant_cancel_ticket_when_confirmed() {
    let alice = actor(1, "Alice", Role::Initiator, "alice");
    let bob = actor(2, "Bob", Role::PurchasingManager, "bob");
    let stored = requested_ticket(&alice);
    let stored = edit(&bob, &stored, TicketOp::Confirm(100)).unwrap();
    let err = edit(&alice, &stored, TicketOp::Cancel).unwrap_err();
    assert_eq!(err, EditTicketError::TicketCannotBeCancelled);
}

#[test]
fn cant_cancel_ticket_when_not_initiator() {
    let alice = actor(1, "Alice", Role::Initiator, "alice");
    let bob = actor(2, "Bob", Role::PurchasingManager, "bob");
    let stored = requested_ticket(&alice);
    let err = edit(&bob, &stored, TicketOp::Cancel).unwrap_err();
    assert_eq!(err, EditTicketError::TicketCannotBeCancelled);
}

#[test]
fn confirms_ticket() {
    let alice = actor(1, "Alice", Role::Initiator, "alice");
    let bob = actor(2, "Bob", Role::PurchasingManager, "bob");
    let stored = requested_ticket(&alice);
    let stored = edit(&bob, &stored, TicketOp::Confirm(100)).unwrap();
    let ticket = get_ticket_core(&Some(stored), &vec![alice, bob]).unwrap();
    assert_eq!(ticket.title, "Ticket 1");
    assert_eq!(ticket.description, "Description 1");
    assert_eq!(ticket.status, api::ticket::Status::Confirmed);
    assert_eq!(ticket.count, 1);
    assert_eq!(ticket.price, Some(100));
    assert_eq!(ticket.initiator.id, api::user::Id::from(1));
    assert_eq!(ticket.initiator.name, "Alice");
    assert_eq!(ticket.initiator.role, api::user::Role::Initiator);
    assert_eq!(
        ticket.purchasing_manager.as_ref().map(|u| u.id),
        Some(api::user::Id::from(2))
    );
    assert_eq!(
        ticket.purchasing_manager.as_ref().map(|u| u.name.as_str()),
        Some("Bob")
    );
    assert_eq!(
        ticket.purchasing_manager.as_ref().map(|u| u.role),
        Some(api::user::Role::PurchasingManager)
    );
    assert_eq!(ticket.accounting_manager, None);
}

#[test]
fn cant_confirm_ticket_when_not_purchasing_manager() {
    let alice = actor(1, "Alice", Role::Initiator, "alice");
    let stored = requested_ticket(&alice);
    let err = edit(&alice, &stored, TicketOp::Confirm(100)).unwrap_err();
    assert_eq!(err, EditTicketError::TicketCannotBeConfirmed);
}

#[test]
fn cant_confirm_ticket_when_not_requested() {
    let alice = actor(1, "Alice", Role::Initiator, "alice");
    let bob = actor(2, "Bob", Role::PurchasingManager, "bob");
    let stored = requested_ticket(&alice);
    let stored = edit(&alice, &stored, TicketOp::Cancel).unwrap();
    let err = edit(&bob, &stored, TicketOp::Confirm(100)).unwrap_err();
    assert_eq!(err, EditTicketError::TicketCannotBeConfirmed);
}

#[test]
fn denies_ticket() {
    let alice = actor(1, "Alice", Role::Initiator, "alice");
    let bob = actor(2, "Bob", Role::PurchasingManager, "bob");
    let stored = requested_ticket(&alice);
    let stored = edit(&bob, &stored, TicketOp::Deny).unwrap();
    let ticket = get_ticket_core(&Some(stored), &vec![alice, bob]).unwrap();
    assert_eq!(ticket.title, "Ticket 1");
    assert_eq!(ticket.description, "Description 1");
    assert_eq!(ticket.status, api::ticket::Status::Denied);
    assert_eq!(ticket.count, 1);
    assert_eq!(ticket.price, None);
    assert_eq!(ticket.initiator.id, api::user::Id::from(1));
    assert_eq!(ticket.initiator.name, "Alice");
    assert_eq!(ticket.initiator.role, api::user::Role::Initiator);
    assert_eq!(
        ticket.purchasing_manager.as_ref().map(|u| u.id),
        Some(api::user::Id::from(2))
    );
    assert_eq!(
        ticket.purchasing_manager.as_ref().map(|u| u.name.as_str()),
        Some("Bob")
    );
    assert_eq!(
        ticket.purchasing_manager.as_ref().map(|u| u.role),
        Some(api::user::Role::PurchasingManager)
    );
    assert_eq!(ticket.accounting_manager, None);
}

#[test]
fn cant_deny_ticket_when_not_purchasing_manager() {
    let alice = actor(1, "Alice", Role::Initiator, "alice");
    let stored = requested_ticket(&alice);
    let err = edit(&alice, &stored, TicketOp::Deny).unwrap_err();
    assert_eq!(err, EditTicketError::TicketCannotBeDenied);
}

#[test]
fn cant_deny_ticket_when_not_requested() {
    let alice = actor(1, "Alice", Role::Initiator, "alice");
    let bob = actor(2, "Bob", Role::PurchasingManager, "bob");
    let stored = requested_ticket(&alice);
    let stored = edit(&alice, &stored, TicketOp::Cancel).unwrap();
    let err = edit(&bob, &stored, TicketOp::Deny).unwrap_err();
    assert_eq!(err, EditTicketError::TicketCannotBeDenied);
}

#[test]
fn mark_ticket_as_paid() {
    let alice = actor(1, "Alice", Role::Initiator, "alice");
    let bob = actor(2, "Bob", Role::PurchasingManager, "bob");
    let charlie = actor(3, "Charlie", Role::AccountingManager, "charlie");
    let stored = requested_ticket(&alice);
    let stored = edit(&bob, &stored, TicketOp::Confirm(100)).unwrap();
    let stored = edit(&charlie, &stored, TicketOp::MarkAsPaid).unwrap();
    let ticket = get_ticket_core(&Some(stored), &vec![alice, bob, charlie]).unwrap();
    assert_eq!(ticket.title, "Ticket 1");
    assert_eq!(ticket.description, "Description 1");
    assert_eq!(ticket.status, api::ticket::Status::PaymentCompleted);
    assert_eq!(ticket.count, 1);
    assert_eq!(ticket.price, Some(100));
    assert_eq!(ticket.initiator.id, api::user::Id::from(1));
    assert_eq!(ticket.initiator.name, "Alice");
    assert_eq!(ticket.initiator.role, api::user::Role::Initiator);
    assert_eq!(
        ticket.purchasing_manager.as_ref().map(|u| u.id),
        Some(api::user::Id::from(2))
    );
    assert_eq!(
        ticket.purchasing_manager.as_ref().map(|u| u.name.as_str()),
        Some("Bob")
    );
    assert_eq!(
        ticket.purchasing_manager.as_ref().map(|u| u.role),
        Some(api::user::Role::PurchasingManager)
    );
    assert_eq!(
        ticket.accounting_manager.as_ref().map(|u| u.id),
        Some(api::user::Id::from(3))
    );
    assert_eq!(
        ticket.accounting_manager.as_ref().map(|u| u.name.as_str()),
        Some("Charlie")
    );
    assert_eq!(
        ticket.accounting_manager.as_ref().map(|u| u.role),
        Some(api::user::Role::AccountingManager)
    );
}

#[test]
fn cant_mark_ticket_as_paid_when_not_accounting_manager() {
    let alice = actor(1, "Alice", Role::Initiator, "alice");
    let bob = actor(2, "Bob", Role::PurchasingManager, "bob");
    let stored = requested_ticket(&alice);
    let stored = edit(&bob, &stored, TicketOp::Confirm(100)).unwrap();
    let err = edit(&bob, &stored, TicketOp::MarkAsPaid).unwrap_err();
    assert_eq!(err, EditTicketError::TicketCannotBePaid);
}

#[test]
fn cant_mark_ticket_as_paid_when_not_confirmed() {
    let alice = actor(1, "Alice", Role::Initiator, "alice");
    let charlie = actor(3, "Charlie", Role::AccountingManager, "charlie");
    let stored = requested_ticket(&alice);
    let err = edit(&charlie, &stored, TicketOp::MarkAsPaid).unwrap_err();
    assert_eq!(err, EditTicketError::TicketCannotBePaid);
}
