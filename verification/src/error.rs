use vstd::prelude::*;

verus! {

/// Why an operation of the registry was refused.
#[derive(Debug, Clone, Copy, PartialEq, Eq, Structural)]
pub enum AnsError {
    /// The name has fewer than 3 or more than 32 characters.
    InvalidNameLength,
    /// The endpoint has more than 256 characters.
    EndpointTooLong,
    /// The record is not listed for sale.
    NotForSale,
    /// A listing price of zero.
    InvalidPrice,
    /// The seller named by the buyer is not the owner of the record.
    WrongSeller,
    /// The record's validity has lapsed.
    DomainExpired,
    /// The caller is not the owner of the record.
    Unauthorized,
    /// No record is bound to the name.
    NotFound,
    /// A record is already bound to the name.
    NameAlreadyExists,
    /// The payment that a purchase asks for was not made.
    PaymentFailed,
}

} // verus!
