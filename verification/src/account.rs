use vstd::prelude::*;
use crate::pubkey::Pubkey;

verus! {

/// The fewest characters a name may have.
pub const MIN_NAME_LEN: usize = 3;

/// The most characters a name may have.
pub const MAX_NAME_LEN: usize = 32;

/// The most characters an endpoint may have.
pub const MAX_ENDPOINT_LEN: usize = 256;

/// How long a registration or a renewal lasts: one year, in seconds.
pub const VALIDITY_PERIOD: i64 = 31_536_000;

/// The record bound to one name.
#[derive(Debug)]
pub struct DomainAccount {
    /// The name the record is bound to; it never changes.
    pub name: String,
    /// The principal who controls the record.
    pub owner: Pubkey,
    /// How to reach the named service.
    pub endpoint: String,
    /// A short classification, fixed at creation.
    pub category: String,
    /// When the record was created, in seconds.
    pub created_at: i64,
    /// When the record's validity lapses, in seconds.
    pub expires_at: i64,
    /// Whether the name is offered for sale.
    pub is_listed: bool,
    /// The asking price while the name is offered, zero otherwise.
    pub list_price: u64,
}

/// A record as a mathematical value: its strings as sequences of characters
/// and its times as integers.
pub struct DomainView {
    /// The name the record is bound to.
    pub name: Seq<char>,
    /// The principal who controls the record.
    pub owner: Pubkey,
    /// How to reach the named service.
    pub endpoint: Seq<char>,
    /// The classification of the record.
    pub category: Seq<char>,
    /// When the record was created.
    pub created_at: int,
    /// When the record's validity lapses.
    pub expires_at: int,
    /// Whether the name is offered for sale.
    pub is_listed: bool,
    /// The asking price while the name is offered, zero otherwise.
    pub list_price: u64,
}

impl View for DomainAccount {
    type V = DomainView;

    open spec fn view(&self) -> DomainView {
        DomainView {
            name: self.name@,
            owner: self.owner,
            endpoint: self.endpoint@,
            category: self.category@,
            created_at: self.created_at as int,
            expires_at: self.expires_at as int,
            is_listed: self.is_listed,
            list_price: self.list_price,
        }
    }
}

impl Clone for DomainAccount {
    fn clone(&self) -> (copy: DomainAccount)
        ensures
            copy == *self,
    {
        DomainAccount {
            name: self.name.clone(),
            owner: self.owner,
            endpoint: self.endpoint.clone(),
            category: self.category.clone(),
            created_at: self.created_at,
            expires_at: self.expires_at,
            is_listed: self.is_listed,
            list_price: self.list_price,
        }
    }
}

impl PartialEq for DomainAccount {
    fn eq(&self, other: &DomainAccount) -> (r: bool) {
        self.name == other.name && self.owner == other.owner && self.endpoint == other.endpoint
            && self.category == other.category && self.created_at == other.created_at
            && self.expires_at == other.expires_at && self.is_listed == other.is_listed
            && self.list_price == other.list_price
    }
}

impl Eq for DomainAccount {

}

impl vstd::std_specs::cmp::PartialEqSpecImpl for DomainAccount {
    open spec fn obeys_eq_spec() -> bool {
        true
    }

    open spec fn eq_spec(&self, other: &DomainAccount) -> bool {
        self@ == other@
    }
}

/// Whether a name has an admissible number of characters.
pub open spec fn valid_name(name: Seq<char>) -> bool {
    MIN_NAME_LEN <= name.len() <= MAX_NAME_LEN
}

/// Whether an endpoint has an admissible number of characters.
pub open spec fn valid_endpoint(endpoint: Seq<char>) -> bool {
    endpoint.len() <= MAX_ENDPOINT_LEN
}

impl DomainView {
    /// What holds of every record that the registry's operations produce:
    /// the name and the endpoint have admissible lengths, a listed record has
    /// a positive price, an unlisted one has price zero, and the record does
    /// not expire before it was created.
    pub open spec fn wf(self) -> bool {
        &&& valid_name(self.name)
        &&& valid_endpoint(self.endpoint)
        &&& self.is_listed ==> self.list_price > 0
        &&& !self.is_listed ==> self.list_price == 0
        &&& self.expires_at >= self.created_at
    }

    /// Whether the record's validity has lapsed at time `now`.
    pub open spec fn expired_at(self, now: int) -> bool {
        self.expires_at <= now
    }

    /// The record taken off the market.
    pub open spec fn unlisted(self) -> DomainView {
        DomainView { is_listed: false, list_price: 0, ..self }
    }
}

} // verus!
