use vstd::prelude::*;

use crate::db::ticket::Ticket;

verus! {

/// The listing order: newer tickets first (`created_at` descending), ties
/// broken by descending id.  The id tiebreak makes the order total over a
/// store whose ids are unique, so repeated reads return the same sequence
/// even when tickets share a timestamp.
pub open spec fn ticket_le(a: Ticket, b: Ticket) -> bool {
    ||| a.created_at > b.created_at
    ||| (a.created_at == b.created_at && a.id.0 >= b.id.0)
}

fn ticket_le_exec(a: &Ticket, b: &Ticket) -> (r: bool)
    ensures
        r == ticket_le(*a, *b),
{
    a.created_at > b.created_at || (a.created_at == b.created_at && a.id.0 >= b.id.0)
}

/// Whether `s` already runs in the listing order.
pub open spec fn page_ordered(s: Seq<Ticket>) -> bool {
    forall|a: int, b: int| 0 <= a <= b < s.len() ==> ticket_le(s[a], s[b])
}

/// Where a ticket lands when inserted into `s`: right after the longest
/// prefix of elements that precede it in the listing order.
pub open spec fn insert_pos(s: Seq<Ticket>, t: Ticket) -> int
    decreases s.len(),
{
    if s.len() == 0 {
        0
    } else if ticket_le(s[0], t) {
        1 + insert_pos(s.drop_first(), t)
    } else {
        0
    }
}

/// `s` with `t` inserted at its position in the listing order.
pub open spec fn sorted_insert(s: Seq<Ticket>, t: Ticket) -> Seq<Ticket> {
    s.insert(insert_pos(s, t), t)
}

/// The canonical listing order of a whole store snapshot, defined by
/// insertion.
pub open spec fn sort_spec(s: Seq<Ticket>) -> Seq<Ticket>
    decreases s.len(),
{
    if s.len() == 0 {
        s
    } else {
        sorted_insert(sort_spec(s.drop_last()), s.last())
    }
}

proof fn lemma_insert_pos_facts(s: Seq<Ticket>, t: Ticket)
    ensures
        0 <= insert_pos(s, t) <= s.len(),
        forall|j: int| 0 <= j < insert_pos(s, t) ==> ticket_le(s[j], t),
        insert_pos(s, t) < s.len() ==> !ticket_le(s[insert_pos(s, t)], t),
    decreases s.len(),
{
    if s.len() == 0 {
    } else if ticket_le(s[0], t) {
        lemma_insert_pos_facts(s.drop_first(), t);
        assert forall|j: int| 0 <= j < insert_pos(s, t) implies ticket_le(s[j], t) by {
            if j > 0 {
                assert(s.drop_first()[j - 1] == s[j]);
            }
        }
    } else {
    }
}

proof fn lemma_insert_pos_scan(s: Seq<Ticket>, t: Ticket, p: int)
    requires
        0 <= p <= s.len(),
        forall|j: int| 0 <= j < p ==> ticket_le(s[j], t),
        p < s.len() ==> !ticket_le(s[p], t),
    ensures
        insert_pos(s, t) == p,
    decreases p,
{
    if p == 0 {
    } else {
        assert(ticket_le(s[0], t));
        lemma_insert_pos_scan(s.drop_first(), t, p - 1);
    }
}

proof fn lemma_sorted_insert_ordered(s: Seq<Ticket>, t: Ticket)
    requires
        page_ordered(s),
    ensures
        page_ordered(sorted_insert(s, t)),
{
    lemma_insert_pos_facts(s, t);
    let p = insert_pos(s, t);
    let r = sorted_insert(s, t);
    assert forall|a: int, b: int| 0 <= a <= b < r.len() implies ticket_le(r[a], r[b]) by {
        if a < p && b < p {
            assert(r[a] == s[a] && r[b] == s[b]);
        } else if a == p && b == p {
        } else if a < p && b == p {
            assert(r[a] == s[a] && r[b] == t);
        } else if a == p && b > p {
            assert(r[a] == t && r[b] == s[b - 1]);
            if p < s.len() {
                assert(!ticket_le(s[p], t));
                assert(ticket_le(t, s[p]));
                assert(ticket_le(s[p], s[b - 1]));
            }
        } else if a < p && b > p {
            assert(r[a] == s[a] && r[b] == s[b - 1]);
        } else {
            assert(r[a] == s[a - 1] && r[b] == s[b - 1]);
        }
    }
}

/// Law: the canonical listing order is in fact ordered.
pub proof fn lemma_sort_spec_ordered(s: Seq<Ticket>)
    ensures
        page_ordered(sort_spec(s)),
    decreases s.len(),
{
    if s.len() > 0 {
        lemma_sort_spec_ordered(s.drop_last());
        lemma_sorted_insert_ordered(sort_spec(s.drop_last()), s.last());
    }
}

/// Law: ordering a snapshot keeps exactly its tickets, no more and no
/// fewer.
pub proof fn lemma_sort_spec_multiset(s: Seq<Ticket>)
    ensures
        sort_spec(s).to_multiset() == s.to_multiset(),
    decreases s.len(),
{
    broadcast use vstd::seq_lib::group_to_multiset_ensures;

    if s.len() > 0 {
        lemma_sort_spec_multiset(s.drop_last());
        lemma_insert_pos_facts(sort_spec(s.drop_last()), s.last());
        assert(s =~= s.drop_last().push(s.last()));
    }
}

fn scan_pos(out: &Vec<Ticket>, t: &Ticket) -> (p: usize)
    ensures
        0 <= p <= out@.len(),
        forall|j: int| 0 <= j < p ==> ticket_le(out@[j], *t),
        p < out@.len() ==> !ticket_le(out@[p as int], *t),
{
    let mut p: usize = 0;
    while p < out.len()
        invariant
            p <= out.len(),
            forall|j: int| 0 <= j < p ==> ticket_le(out@[j], *t),
        decreases out.len() - p,
    {
        if !ticket_le_exec(&out[p], t) {
            return p;
        }
        p += 1;
    }
    p
}

/// Sorts a snapshot of the ticket store into the listing order.
pub fn sort_tickets(s: &Vec<Ticket>) -> (r: Vec<Ticket>)
    ensures
        r@ == sort_spec(s@),
{
    let mut out: Vec<Ticket> = Vec::new();
    let mut i: usize = 0;
    proof {
        assert(s@.subrange(0, 0) =~= Seq::<Ticket>::empty());
    }
    while i < s.len()
        invariant
            i <= s.len(),
            out@ == sort_spec(s@.subrange(0, i as int)),
        decreases s.len() - i,
    {
        let t = &s[i];
        let p = scan_pos(&out, t);
        proof {
            lemma_insert_pos_scan(out@, *t, p as int);
        }
        out.insert(p, t.clone());
        proof {
            let prefix = s@.subrange(0, i as int);
            let next = s@.subrange(0, i + 1 as int);
            assert(next.drop_last() =~= prefix);
            assert(next.last() == s@[i as int]);
        }
        i += 1;
    }
    proof {
        assert(s@.subrange(0, s@.len() as int) =~= s@);
    }
    out
}

/// The page of the canonical listing that starts at `offset` and holds at
/// most `limit` tickets, both clipped to the snapshot's size.
pub open spec fn page_view(s: Seq<Ticket>, offset: int, limit: int) -> Seq<Ticket> {
    let ordered = sort_spec(s);
    let lo = if offset > ordered.len() {
        ordered.len() as int
    } else {
        offset
    };
    let hi = if offset + limit > ordered.len() {
        ordered.len() as int
    } else {
        offset + limit
    };
    ordered.subrange(lo, hi)
}

/// Orders a snapshot of the ticket store and returns the requested window,
/// together with the size of the full unfiltered set.
pub fn list_page(tickets: &Vec<Ticket>, offset: usize, limit: usize) -> (r: (Vec<Ticket>, usize))
    ensures
        r.0@ == page_view(tickets@, offset as int, limit as int),
        r.1 == tickets@.len(),
{
    let sorted = sort_tickets(tickets);
    let total = tickets.len();
    let lo = if offset > sorted.len() {
        sorted.len()
    } else {
        offset
    };
    let remaining = sorted.len() - lo;
    let take = if limit > remaining {
        remaining
    } else {
        limit
    };
    let mut page: Vec<Ticket> = Vec::new();
    let mut k: usize = 0;
    while k < take
        invariant
            k <= take,
            lo + take <= sorted@.len(),
            sorted@.len() <= usize::MAX,
            sorted@ == sort_spec(tickets@),
            page@.len() == k,
            forall|j: int| 0 <= j < k ==> page@[j] == sort_spec(tickets@)[lo + j],
        decreases take - k,
    {
        page.push(sorted[lo + k].clone());
        k += 1;
    }
    proof {
        assert(page@ =~= page_view(tickets@, offset as int, limit as int));
    }
    (page, total)
}

/// Law: listing is idempotent.  The page returned for a snapshot is a
/// function of the snapshot and the window alone, so two reads of an
/// unchanged store return identical sequences.
pub proof fn lemma_listing_idempotent(
    s: Seq<Ticket>,
    offset: int,
    limit: int,
    first: Seq<Ticket>,
    second: Seq<Ticket>,
)
    requires
        first == page_view(s, offset, limit),
        second == page_view(s, offset, limit),
    ensures
        first == second,
{
}

/// Whether no two tickets of `s` share an id, as a store keyed by id keeps
/// them.
pub open spec fn distinct_ticket_ids(s: Seq<Ticket>) -> bool {
    forall|a: int, b: int| 0 <= a < b < s.len() ==> s[a].id != s[b].id
}

/// Law: the listing order is deterministic.  Any two sequences that hold
/// the same tickets and both run in the listing order are equal, provided
/// no id occurs twice — as in a store keyed by id.  Together with the
/// contract of `list_page`, repeated reads of an unchanged store therefore
/// return identical pages.
pub proof fn lemma_order_deterministic(x: Seq<Ticket>, y: Seq<Ticket>)
    requires
        page_ordered(x),
        page_ordered(y),
        x.to_multiset() == y.to_multiset(),
        distinct_ticket_ids(x),
    ensures
        x =~= y,
    decreases x.len(),
{
    broadcast use vstd::seq_lib::group_to_multiset_ensures;

    if x.len() == 0 || y.len() == 0 {
    } else {
        assert(y.to_multiset().contains(y[0]));
        assert(x.to_multiset().contains(x[0]));
        let i = choose|i: int| 0 <= i < x.len() && x[i] == y[0];
        let j = choose|j: int| 0 <= j < y.len() && y[j] == x[0];
        assert(ticket_le(x[0], x[i]));
        assert(ticket_le(y[0], y[j]));
        assert(ticket_le(x[i], x[0]));
        if i != 0 {
            assert(x[0].id != x[i].id);
            assert(false);
        }
        assert(x[0] == y[0]);
        assert(x.drop_first().to_multiset() =~= x.to_multiset().remove(x[0])) by {
            assert(x.remove(0) =~= x.drop_first());
        }
        assert(y.drop_first().to_multiset() =~= y.to_multiset().remove(y[0])) by {
            assert(y.remove(0) =~= y.drop_first());
        }
        assert(distinct_ticket_ids(x.drop_first()));
        lemma_order_deterministic(x.drop_first(), y.drop_first());
        assert forall|k: int| 0 <= k < x.len() implies x[k] == y[k] by {
            if k > 0 {
                assert(x.drop_first()[k - 1] == y.drop_first()[k - 1]);
            }
        }
    }
}

} // verus!
