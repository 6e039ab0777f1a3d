use vstd::prelude::*;
use crate::pubkey::Pubkey;

verus! {

/// Who asks for a registration.
#[derive(Debug, Clone, Copy, PartialEq, Eq)]
pub struct RegisterDomain {
    /// The caller, who becomes the owner of the new record.
    pub owner: Pubkey,
}

/// Who asks for a transfer of ownership, and to whom.
#[derive(Debug, Clone, Copy, PartialEq, Eq)]
pub struct TransferDomain {
    /// The caller, who has to be the owner of the record.
    pub owner: Pubkey,
    /// The principal who is to own the record.
    pub new_owner: Pubkey,
}

/// Who asks for a change of a record that only its owner may make.
#[derive(Debug, Clone, Copy, PartialEq, Eq)]
pub struct UpdateDomain {
    /// The caller, who has to be the owner of the record.
    pub owner: Pubkey,
}

/// Who asks for a purchase, and whom the buyer means to pay.
#[derive(Debug, Clone, Copy, PartialEq, Eq)]
pub struct BuyDomain {
    /// The caller, who pays and becomes the owner.
    pub buyer: Pubkey,
    /// The principal the buyer names as the one to be paid; it has to be the
    /// owner of the record.
    pub seller: Pubkey,
}

/// A movement of value from one principal to another.
#[derive(Debug, Clone, Copy, PartialEq, Eq)]
pub struct Payment {
    /// The principal who pays.
    pub from: Pubkey,
    /// The principal who is paid.
    pub to: Pubkey,
    /// How much is moved.
    pub amount: u64,
}

/// What the caller of a purchase reports of its payment.
#[derive(Debug, Clone, Copy, PartialEq, Eq)]
pub enum PaymentStatus {
    /// No payment has been attempted yet.
    Pending,
    /// This payment was made.
    Settled(Payment),
    /// The payment was attempted and did not go through: no value has moved.
    Failed,
}

/// What a purchase asks of its caller next.
#[derive(Debug, Clone, Copy, PartialEq, Eq)]
pub enum BuyStep {
    /// The purchase is admissible: make this payment, then report how it went.
    Pay(Payment),
    /// The purchase is complete: the buyer owns the record.
    Done,
}

} // verus!
