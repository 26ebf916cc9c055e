use vstd::prelude::*;

use crate::db::user;

verus! {

/// An opaque 128-bit ticket identifier.  Identifiers are generated randomly
/// at creation time and serialized as canonical text in external
/// representations; their numeric order agrees with the lexicographic order
/// of that canonical text, and the listing order relies on it.
#[derive(Clone, Copy, Debug, Default, PartialEq, Eq, Structural, Hash)]
pub struct Id(pub u128);

impl Id {
    /// A fresh random identifier.
    pub fn new() -> Id {
        Id(crate::db::fresh_id_value())
    }
}

impl From<u128> for Id {
    fn from(value: u128) -> (r: Self)
        ensures
            r == Id(value),
    {
        Id(value)
    }
}

impl vstd::std_specs::convert::FromSpecImpl<u128> for Id {
    open spec fn obeys_from_spec() -> bool {
        true
    }

    open spec fn from_spec(value: u128) -> Self {
        Id(value)
    }
}

/// A ticket's lifecycle status.  `Requested` is the initial status;
/// `Cancelled`, `Denied` and `PaymentCompleted` are terminal.  Statuses are
/// persisted as small integer codes and exchanged externally as fixed string
/// tokens; both mappings are total and stable.
#[derive(Clone, Copy, Debug, PartialEq, Eq, Structural, Hash)]
pub enum Status {
    /// Some materials are requested.
    Requested,
    /// The request was cancelled by its initiator.
    Cancelled,
    /// A purchasing manager confirmed the request and set its price.
    Confirmed,
    /// A purchasing manager denied the request.
    Denied,
    /// Accounting completed the payment.
    PaymentCompleted,
}

impl Status {
    /// The stable integer code under which this status is persisted.
    pub open spec fn code_spec(self) -> u8 {
        match self {
            Status::Requested => 1,
            Status::Cancelled => 2,
            Status::Confirmed => 3,
            Status::Denied => 4,
            Status::PaymentCompleted => 5,
        }
    }

    /// The status persisted under `code`, if any.
    pub open spec fn from_code_spec(code: u8) -> Option<Status> {
        if code == 1 {
            Some(Status::Requested)
        } else if code == 2 {
            Some(Status::Cancelled)
        } else if code == 3 {
            Some(Status::Confirmed)
        } else if code == 4 {
            Some(Status::Denied)
        } else if code == 5 {
            Some(Status::PaymentCompleted)
        } else {
            None
        }
    }

    pub fn code(self) -> (r: u8)
        ensures
            r == self.code_spec(),
    {
        match self {
            Status::Requested => 1,
            Status::Cancelled => 2,
            Status::Confirmed => 3,
            Status::Denied => 4,
            Status::PaymentCompleted => 5,
        }
    }

    pub fn from_code(code: u8) -> (r: Option<Status>)
        ensures
            r == Self::from_code_spec(code),
    {
        if code == 1 {
            Some(Status::Requested)
        } else if code == 2 {
            Some(Status::Cancelled)
        } else if code == 3 {
            Some(Status::Confirmed)
        } else if code == 4 {
            Some(Status::Denied)
        } else if code == 5 {
            Some(Status::PaymentCompleted)
        } else {
            None
        }
    }

    /// Decoding a persisted code restores exactly the status that produced
    /// it.
    pub proof fn lemma_code_round_trip(self)
        ensures
            Self::from_code_spec(self.code_spec()) == Some(self),
    {
    }

    /// Every decodable code re-encodes to itself, so the mapping between
    /// statuses and persisted codes is bijective on the codes in use.
    pub proof fn lemma_from_code_inverse(code: u8)
        ensures
            Self::from_code_spec(code) matches Some(s) ==> s.code_spec() == code,
    {
    }
}

/// A stored ticket record.
///
/// Invariants kept by the lifecycle engine: `price` is set exactly in the
/// `Confirmed` and `PaymentCompleted` statuses; `purchasing_manager` and
/// `accounting_manager`, once set, are never cleared and always name the
/// manager whose accepted operation set them.
#[derive(Debug, PartialEq)]
pub struct Ticket {
    pub id: Id,
    pub title: String,
    pub description: String,
    pub status: Status,
    pub count: usize,
    pub price: Option<u64>,
    pub initiator: user::Id,
    pub purchasing_manager: Option<user::Id>,
    pub accounting_manager: Option<user::Id>,
    pub created_at: i64,
}

impl Clone for Ticket {
    fn clone(&self) -> (res: Self)
        ensures
            res == *self,
    {
        Ticket {
            id: self.id,
            title: self.title.clone(),
            description: self.description.clone(),
            status: self.status,
            count: self.count,
            price: self.price,
            initiator: self.initiator,
            purchasing_manager: self.purchasing_manager,
            accounting_manager: self.accounting_manager,
            created_at: self.created_at,
        }
    }
}

} // verus!
