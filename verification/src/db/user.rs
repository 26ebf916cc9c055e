use vstd::prelude::*;

verus! {

/// An opaque 128-bit user identifier.  Identifiers are generated randomly at
/// creation time and serialized as canonical text in external
/// representations.
#[derive(Clone, Copy, Debug, Default, PartialEq, Eq, Structural, Hash)]
pub struct Id(pub u128);

impl Id {
    /// A fresh random identifier.
    pub fn new() -> Id {
        Id(crate::db::fresh_id_value())
    }
}

impl From<u128> for Id {
    fn from(value: u128) -> (r: Self)
        ensures
            r == Id(value),
    {
        Id(value)
    }
}

impl vstd::std_specs::convert::FromSpecImpl<u128> for Id {
    open spec fn obeys_from_spec() -> bool {
        true
    }

    open spec fn from_spec(value: u128) -> Self {
        Id(value)
    }
}

/// A user's role, fixed at creation.  Roles are persisted as small integer
/// codes and exchanged externally as fixed string tokens; both mappings are
/// total and stable.
#[derive(Clone, Copy, Debug, PartialEq, Eq, Structural, Hash)]
pub enum Role {
    Initiator,
    PurchasingManager,
    AccountingManager,
}

impl Role {
    /// The stable integer code under which this role is persisted.
    pub open spec fn code_spec(self) -> u8 {
        match self {
            Role::Initiator => 1,
            Role::PurchasingManager => 2,
            Role::AccountingManager => 3,
        }
    }

    /// The role persisted under `code`, if any.
    pub open spec fn from_code_spec(code: u8) -> Option<Role> {
        if code == 1 {
            Some(Role::Initiator)
        } else if code == 2 {
            Some(Role::PurchasingManager)
        } else if code == 3 {
            Some(Role::AccountingManager)
        } else {
            None
        }
    }

    pub fn code(self) -> (r: u8)
        ensures
            r == self.code_spec(),
    {
        match self {
            Role::Initiator => 1,
            Role::PurchasingManager => 2,
            Role::AccountingManager => 3,
        }
    }

    pub fn from_code(code: u8) -> (r: Option<Role>)
        ensures
            r == Self::from_code_spec(code),
    {
        if code == 1 {
            Some(Role::Initiator)
        } else if code == 2 {
            Some(Role::PurchasingManager)
        } else if code == 3 {
            Some(Role::AccountingManager)
        } else {
            None
        }
    }

    /// Decoding a persisted code restores exactly the role that produced it.
    pub proof fn lemma_code_round_trip(self)
        ensures
            Self::from_code_spec(self.code_spec()) == Some(self),
    {
    }

    /// Every decodable code re-encodes to itself, so the mapping between
    /// roles and persisted codes is bijective on the codes in use.
    pub proof fn lemma_from_code_inverse(code: u8)
        ensures
            Self::from_code_spec(code) matches Some(r) ==> r.code_spec() == code,
    {
    }
}

/// A password hash as the credential store keeps it.  The hash function is an
/// external, replaceable collaborator; the placeholder in use keeps the
/// secret's characters unchanged.
#[derive(Debug, PartialEq)]
pub struct PasswordHash(String);

impl View for PasswordHash {
    type V = Seq<char>;

    closed spec fn view(&self) -> Seq<char> {
        self.0@
    }
}

impl Clone for PasswordHash {
    fn clone(&self) -> (res: Self)
        ensures
            res == *self,
    {
        PasswordHash(self.0.clone())
    }
}

impl PasswordHash {
    pub fn new(secret: &str) -> (r: Self)
        ensures
            r@ == secret@,
    {
        PasswordHash(secret.to_string())
    }

    /// Whether two hashes agree; the credential check of the token service.
    pub fn matches(&self, other: &PasswordHash) -> (r: bool)
        ensures
            r == (self@ == other@),
    {
        self.0 == other.0
    }
}

/// A stored user record.  `login` and `password_hash` are only read by the
/// token service and never exposed in ticket views.
#[derive(Debug, PartialEq)]
pub struct User {
    pub id: Id,
    pub name: String,
    pub role: Role,
    pub login: String,
    pub password_hash: PasswordHash,
}

impl Clone for User {
    fn clone(&self) -> (res: Self)
        ensures
            res == *self,
    {
        User {
            id: self.id,
            name: self.name.clone(),
            role: self.role,
            login: self.login.clone(),
            password_hash: self.password_hash.clone(),
        }
    }
}

} // verus!
