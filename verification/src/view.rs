use vstd::prelude::*;

use crate::api;
use crate::db::ticket::Ticket;
use crate::db::user::{self, User};

verus! {

/// The summary under which a stored user is embedded in views.
pub open spec fn summary_spec(u: User) -> api::User {
    api::User { id: u.id, name: u.name, role: u.role }
}

/// Builds the embedded summary of one stored user.
pub fn user_summary(u: &User) -> (r: api::User)
    ensures
        r == summary_spec(*u),
{
    api::User { id: u.id, name: u.name.clone(), role: u.role }
}

/// The first user in `users` carrying `id`, if any.
pub open spec fn lookup_user(users: Seq<User>, id: user::Id) -> Option<User>
    decreases users.len(),
{
    if users.len() == 0 {
        None
    } else if users[0].id == id {
        Some(users[0])
    } else {
        lookup_user(users.drop_first(), id)
    }
}

/// Finds the user carrying `id` in the batch-lookup result.
pub fn find_user<'a>(users: &'a Vec<User>, id: user::Id) -> (r: Option<&'a User>)
    ensures
        r matches Some(u) ==> lookup_user(users@, id) == Some(*u),
        r is None <==> lookup_user(users@, id) is None,
{
    let mut i: usize = 0;
    proof {
        assert(users@.subrange(0, users@.len() as int) =~= users@);
    }
    while i < users.len()
        invariant
            i <= users.len(),
            lookup_user(users@, id) == lookup_user(
                users@.subrange(i as int, users@.len() as int),
                id,
            ),
        decreases users.len() - i,
    {
        if users[i].id == id {
            proof {
                assert(users@.subrange(i as int, users@.len() as int)[0] == users@[i as int]);
            }
            return Some(&users[i]);
        }
        proof {
            assert(users@.subrange(i as int, users@.len() as int).drop_first() =~= users@.subrange(
                i as int + 1,
                users@.len() as int,
            ));
        }
        i += 1;
    }
    None
}

/// Whether ticket `t` references the user `id` through any of its role
/// fields.
pub open spec fn references(t: Ticket, id: user::Id) -> bool {
    t.initiator == id || t.purchasing_manager == Some(id) || t.accounting_manager == Some(id)
}

/// Whether any ticket of `page` references the user `id`.
pub open spec fn referenced_in(page: Seq<Ticket>, id: user::Id) -> bool {
    exists|i: int| 0 <= i < page.len() && references(page[i], id)
}

/// Whether a sequence of ids holds no id twice.
pub open spec fn distinct_ids(ids: Seq<user::Id>) -> bool {
    forall|a: int, b: int| 0 <= a < b < ids.len() ==> ids[a] != ids[b]
}

/// Whether `ids` lists the distinct referenced users of `page`: every
/// referenced id exactly once and nothing else.  This is the set handed to
/// the single batch lookup of a page.
pub open spec fn id_batch(page: Seq<Ticket>, ids: Seq<user::Id>) -> bool {
    &&& distinct_ids(ids)
    &&& forall|id: user::Id| ids.contains(id) <==> referenced_in(page, id)
}

fn contains_id(ids: &Vec<user::Id>, id: user::Id) -> (r: bool)
    ensures
        r == ids@.contains(id),
{
    let mut i: usize = 0;
    while i < ids.len()
        invariant
            i <= ids.len(),
            forall|j: int| 0 <= j < i ==> ids@[j] != id,
        decreases ids.len() - i,
    {
        if ids[i] == id {
            proof {
                assert(ids@[i as int] == id);
            }
            return true;
        }
        i += 1;
    }
    false
}

/// Appends `id` unless it is already listed, keeping the list duplicate
/// free.
fn push_unique(ids: &mut Vec<user::Id>, id: user::Id)
    requires
        distinct_ids(old(ids)@),
    ensures
        distinct_ids(final(ids)@),
        forall|x: user::Id| final(ids)@.contains(x) <==> old(ids)@.contains(x) || x == id,
{
    if !contains_id(ids, id) {
        let ghost before = ids@;
        ids.push(id);
        proof {
            assert forall|x: user::Id| ids@.contains(x) implies before.contains(x) || x == id by {
                let w = choose|w: int| 0 <= w < ids@.len() && ids@[w] == x;
                if w < before.len() {
                    assert(before[w] == x);
                }
            }
            assert forall|x: user::Id| before.contains(x) || x == id implies ids@.contains(x) by {
                if before.contains(x) {
                    let w = choose|w: int| 0 <= w < before.len() && before[w] == x;
                    assert(ids@[w] == x);
                } else {
                    assert(ids@[before.len() as int] == x);
                }
            }
        }
    }
}

/// Collects the ids of every user referenced across `page`, each exactly
/// once, so that one batch lookup serves the whole page.
pub fn collect_user_ids(page: &Vec<Ticket>) -> (r: Vec<user::Id>)
    ensures
        id_batch(page@, r@),
{
    let mut ids: Vec<user::Id> = Vec::new();
    let mut i: usize = 0;
    while i < page.len()
        invariant
            i <= page.len(),
            id_batch(page@.subrange(0, i as int), ids@),
        decreases page.len() - i,
    {
        let ghost prefix = page@.subrange(0, i as int);
        let t = &page[i];
        push_unique(&mut ids, t.initiator);
        if let Some(pm) = t.purchasing_manager {
            push_unique(&mut ids, pm);
        }
        if let Some(am) = t.accounting_manager {
            push_unique(&mut ids, am);
        }
        proof {
            let next = page@.subrange(0, i + 1 as int);
            assert(next.drop_last() =~= prefix);
            assert(next.last() == page@[i as int]);
            assert forall|id: user::Id| referenced_in(next, id) implies ids@.contains(id) by {
                let w = choose|w: int| 0 <= w < next.len() && references(next[w], id);
                if w < i {
                    assert(prefix[w] == next[w]);
                    assert(referenced_in(prefix, id));
                } else {
                    assert(references(page@[i as int], id));
                }
            }
            assert forall|id: user::Id| ids@.contains(id) implies referenced_in(next, id) by {
                if referenced_in(prefix, id) {
                    let w = choose|w: int| 0 <= w < prefix.len() && references(prefix[w], id);
                    assert(next[w] == prefix[w]);
                    assert(references(next[w], id));
                } else {
                    assert(next[i as int] == page@[i as int]);
                    assert(references(next[i as int], id));
                }
            }
        }
        i += 1;
    }
    proof {
        assert(page@.subrange(0, page@.len() as int) =~= page@);
    }
    ids
}

/// `reference` itself where it is set but `users` does not resolve it, and
/// nothing otherwise.
pub open spec fn unresolved(users: Seq<User>, reference: Option<user::Id>) -> Option<user::Id> {
    match reference {
        Some(id) => if lookup_user(users, id) is None {
            Some(id)
        } else {
            None
        },
        None => None,
    }
}

/// The first reference of `t` that `users` does not resolve, if any: a
/// ticket pointing at a missing user is a data-consistency fault.
pub open spec fn first_missing_ref(t: Ticket, users: Seq<User>) -> Option<user::Id> {
    if lookup_user(users, t.initiator) is None {
        Some(t.initiator)
    } else if unresolved(users, t.purchasing_manager) is Some {
        unresolved(users, t.purchasing_manager)
    } else {
        unresolved(users, t.accounting_manager)
    }
}

/// The aggregate built for `t` once every reference resolves.
pub open spec fn assemble_spec(t: Ticket, users: Seq<User>) -> api::Ticket {
    api::Ticket {
        id: t.id,
        title: t.title,
        description: t.description,
        status: t.status,
        count: t.count,
        price: t.price,
        initiator: summary_spec(lookup_user(users, t.initiator)->0),
        purchasing_manager: match t.purchasing_manager {
            Some(id) => Some(summary_spec(lookup_user(users, id)->0)),
            None => None,
        },
        accounting_manager: match t.accounting_manager {
            Some(id) => Some(summary_spec(lookup_user(users, id)->0)),
            None => None,
        },
    }
}

/// Joins one ticket with the users it references, embedding a summary for
/// each role field.  Fails with the first unresolved id rather than
/// silently omitting a reference.
pub fn assemble_ticket(t: &Ticket, users: &Vec<User>) -> (r: Result<api::Ticket, user::Id>)
    ensures
        r is Ok <==> first_missing_ref(*t, users@) is None,
        r matches Ok(v) ==> v == assemble_spec(*t, users@),
        r matches Err(id) ==> Some(id) == first_missing_ref(*t, users@),
{
    let initiator = match find_user(users, t.initiator) {
        Some(u) => user_summary(u),
        None => {
            return Err(t.initiator);
        },
    };
    let purchasing_manager = match t.purchasing_manager {
        Some(id) => match find_user(users, id) {
            Some(u) => Some(user_summary(u)),
            None => {
                return Err(id);
            },
        },
        None => None,
    };
    let accounting_manager = match t.accounting_manager {
        Some(id) => match find_user(users, id) {
            Some(u) => Some(user_summary(u)),
            None => {
                return Err(id);
            },
        },
        None => None,
    };
    Ok(
        api::Ticket {
            id: t.id,
            title: t.title.clone(),
            description: t.description.clone(),
            status: t.status,
            count: t.count,
            price: t.price,
            initiator,
            purchasing_manager,
            accounting_manager,
        },
    )
}

/// The first unresolved reference across a page, scanning tickets in order.
pub open spec fn page_first_missing(page: Seq<Ticket>, users: Seq<User>) -> Option<user::Id>
    decreases page.len(),
{
    if page.len() == 0 {
        None
    } else if first_missing_ref(page[0], users) is Some {
        first_missing_ref(page[0], users)
    } else {
        page_first_missing(page.drop_first(), users)
    }
}

proof fn lemma_page_first_missing_skip(page: Seq<Ticket>, users: Seq<User>, i: int)
    requires
        0 <= i <= page.len(),
        forall|j: int| 0 <= j < i ==> first_missing_ref(page[j], users) is None,
    ensures
        page_first_missing(page, users) == page_first_missing(
            page.subrange(i, page.len() as int),
            users,
        ),
    decreases i,
{
    if i == 0 {
        assert(page.subrange(0, page.len() as int) =~= page);
    } else {
        lemma_page_first_missing_skip(page, users, i - 1);
        let tail = page.subrange(i - 1, page.len() as int);
        assert(tail[0] == page[i - 1]);
        assert(tail.drop_first() =~= page.subrange(i, page.len() as int));
    }
}

/// Joins a whole page with one shared user directory, preserving the page's
/// order.  Fails with the first unresolved reference of the first faulty
/// ticket.
pub fn assemble_page(page: &Vec<Ticket>, users: &Vec<User>, total_count: usize) -> (r: Result<
    api::ticket::List,
    user::Id,
>)
    ensures
        r is Ok <==> page_first_missing(page@, users@) is None,
        r matches Ok(l) ==> l.total_count == total_count && l.tickets@.len() == page@.len()
            && (forall|i: int|
            0 <= i < page@.len() ==> l.tickets@[i] == assemble_spec(page@[i], users@)),
        r matches Err(id) ==> Some(id) == page_first_missing(page@, users@),
{
    let mut tickets: Vec<api::Ticket> = Vec::new();
    let mut i: usize = 0;
    while i < page.len()
        invariant
            i <= page.len(),
            tickets@.len() == i,
            forall|j: int| 0 <= j < i ==> first_missing_ref(page@[j], users@) is None,
            forall|j: int| 0 <= j < i ==> tickets@[j] == assemble_spec(page@[j], users@),
        decreases page.len() - i,
    {
        match assemble_ticket(&page[i], users) {
            Ok(v) => {
                tickets.push(v);
            },
            Err(id) => {
                proof {
                    lemma_page_first_missing_skip(page@, users@, i as int);
                    let tail = page@.subrange(i as int, page@.len() as int);
                    assert(tail[0] == page@[i as int]);
                }
                return Err(id);
            },
        }
        i += 1;
    }
    proof {
        lemma_page_first_missing_skip(page@, users@, page@.len() as int);
        assert(page@.subrange(page@.len() as int, page@.len() as int).len() == 0);
    }
    Ok(api::ticket::List { tickets, total_count })
}

} // verus!
