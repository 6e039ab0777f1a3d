//! A registry that binds short names to endpoint records, tracks who owns each
//! name, lets ownership be sold at a fixed price, and lets names expire and be
//! renewed.
//!
//! The registry is a state machine on records. Each operation is one
//! transition on one record: it is either refused, and then the record is as
//! it was, or it is carried out in full. The caller and the time are
//! arguments of every operation that depends on them, so the operations read
//! nothing from their surroundings.
//!
//! - [`account`] holds the record, [`DomainAccount`], and its invariants.
//! - [`context`] holds what an operation arrives with: who calls, and for a
//!   purchase what is known of the payment.
//! - [`rules`] says, as mathematical functions, what each operation makes of
//!   a record.
//! - [`ops`] holds the operations on one record, each proved to do what
//!   [`rules`] says.
//! - [`registry`] holds [`Registry`], the records by name, with the same
//!   operations by name.
//! - [`laws`] proves what holds of the operations together.
//!
//! A purchase needs a payment, which this library does not make. It says
//! which payment is due, and completes the purchase when it is told that this
//! payment was made: see [`buy_domain`].

pub mod account;
pub mod context;
pub mod error;
pub mod laws;
pub mod ops;
pub mod pubkey;
pub mod registry;
pub mod rules;

pub use account::{
    DomainAccount, DomainView, MAX_ENDPOINT_LEN, MAX_NAME_LEN, MIN_NAME_LEN, VALIDITY_PERIOD,
};
pub use context::{
    BuyDomain, BuyStep, Payment, PaymentStatus, RegisterDomain, TransferDomain, UpdateDomain,
};
pub use error::AnsError;
pub use ops::{
    buy_domain, list_for_sale, register_domain, renew_domain, transfer_domain, unlist,
    update_endpoint,
};
pub use pubkey::Pubkey;
pub use registry::{valid_records, Records, Registry};
