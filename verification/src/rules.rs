use vstd::prelude::*;
use crate::account::{valid_endpoint, valid_name, DomainView, VALIDITY_PERIOD};
use crate::context::{
    BuyDomain, BuyStep, Payment, PaymentStatus, RegisterDomain, TransferDomain, UpdateDomain,
};
use crate::error::AnsError;

verus! {

/// The later of two times.
pub open spec fn later(a: int, b: int) -> int {
    if a >= b {
        a
    } else {
        b
    }
}

/// The record that a registration creates at time `now`: owned by the caller,
/// valid for one validity period from `now`, and not for sale.
pub open spec fn registered(
    ctx: RegisterDomain,
    name: Seq<char>,
    endpoint: Seq<char>,
    category: Seq<char>,
    now: int,
) -> DomainView {
    DomainView {
        name,
        owner: ctx.owner,
        endpoint,
        category,
        created_at: now,
        expires_at: now + VALIDITY_PERIOD,
        is_listed: false,
        list_price: 0,
    }
}

/// A registration: the new record, or the reason for which it is refused. The
/// name is checked before the endpoint.
pub open spec fn register_result(
    ctx: RegisterDomain,
    name: Seq<char>,
    endpoint: Seq<char>,
    category: Seq<char>,
    now: int,
) -> Result<DomainView, AnsError> {
    if !valid_name(name) {
        Err(AnsError::InvalidNameLength)
    } else if !valid_endpoint(endpoint) {
        Err(AnsError::EndpointTooLong)
    } else {
        Ok(registered(ctx, name, endpoint, category, now))
    }
}

/// A transfer of ownership: the record afterwards, or the reason for which it
/// is refused. The new owner gets the record off the market, whatever the old
/// owner had asked for it, and whether or not it has expired.
pub open spec fn transfer_result(rec: DomainView, ctx: TransferDomain) -> Result<
    DomainView,
    AnsError,
> {
    if ctx.owner != rec.owner {
        Err(AnsError::Unauthorized)
    } else {
        Ok(DomainView { owner: ctx.new_owner, ..rec.unlisted() })
    }
}

/// A change of endpoint: the record afterwards, or the reason for which it is
/// refused. The caller is checked before the endpoint.
pub open spec fn update_endpoint_result(
    rec: DomainView,
    ctx: UpdateDomain,
    new_endpoint: Seq<char>,
) -> Result<DomainView, AnsError> {
    if ctx.owner != rec.owner {
        Err(AnsError::Unauthorized)
    } else if !valid_endpoint(new_endpoint) {
        Err(AnsError::EndpointTooLong)
    } else {
        Ok(DomainView { endpoint: new_endpoint, ..rec })
    }
}

/// A listing for sale: the record afterwards, or the reason for which it is
/// refused. The caller is checked before the price.
pub open spec fn list_for_sale_result(rec: DomainView, ctx: UpdateDomain, price: u64) -> Result<
    DomainView,
    AnsError,
> {
    if ctx.owner != rec.owner {
        Err(AnsError::Unauthorized)
    } else if price == 0 {
        Err(AnsError::InvalidPrice)
    } else {
        Ok(DomainView { is_listed: true, list_price: price, ..rec })
    }
}

/// A withdrawal from sale: the record afterwards, or the reason for which it
/// is refused.
pub open spec fn unlist_result(rec: DomainView, ctx: UpdateDomain) -> Result<DomainView, AnsError> {
    if ctx.owner != rec.owner {
        Err(AnsError::Unauthorized)
    } else {
        Ok(rec.unlisted())
    }
}

/// When a record that expires at `expires_at` expires once it is renewed at
/// time `now`: one validity period after its expiry, or after `now` if it had
/// expired before.
pub open spec fn renewed_expiry(expires_at: int, now: int) -> int {
    later(expires_at, now) + VALIDITY_PERIOD
}

/// A renewal at time `now`: the record afterwards, or the reason for which it
/// is refused.
pub open spec fn renew_result(rec: DomainView, ctx: UpdateDomain, now: int) -> Result<
    DomainView,
    AnsError,
> {
    if ctx.owner != rec.owner {
        Err(AnsError::Unauthorized)
    } else {
        Ok(DomainView { expires_at: renewed_expiry(rec.expires_at, now), ..rec })
    }
}

/// Why a purchase of `rec` is refused at time `now`, if it is: the first of
/// the checks that fails, in the order seller, listing, expiry.
pub open spec fn buy_refusal(rec: DomainView, ctx: BuyDomain, now: int) -> Option<AnsError> {
    if ctx.seller != rec.owner {
        Some(AnsError::WrongSeller)
    } else if !rec.is_listed {
        Some(AnsError::NotForSale)
    } else if rec.expired_at(now) {
        Some(AnsError::DomainExpired)
    } else {
        None
    }
}

/// The payment that a purchase of `rec` asks for: the asking price, from the
/// buyer to the owner.
pub open spec fn payment_due(rec: DomainView, ctx: BuyDomain) -> Payment {
    Payment { from: ctx.buyer, to: rec.owner, amount: rec.list_price }
}

/// The record once `ctx.buyer` has bought it.
pub open spec fn bought(rec: DomainView, ctx: BuyDomain) -> DomainView {
    DomainView { owner: ctx.buyer, ..rec.unlisted() }
}

/// One step of a purchase: the record afterwards and what the caller is to do
/// next, or the reason for which the purchase is refused. The checks of
/// `buy_refusal` come first. Then a purchase without a payment asks for the
/// payment that is due, and one with a payment completes if that payment is
/// the one that is due.
pub open spec fn buy_result(rec: DomainView, ctx: BuyDomain, now: int, status: PaymentStatus)
    -> Result<(DomainView, BuyStep), AnsError> {
    match buy_refusal(rec, ctx, now) {
        Some(e) => Err(e),
        None => match status {
            PaymentStatus::Pending => Ok((rec, BuyStep::Pay(payment_due(rec, ctx)))),
            PaymentStatus::Settled(payment) => if payment == payment_due(rec, ctx) {
                Ok((bought(rec, ctx), BuyStep::Done))
            } else {
                Err(AnsError::PaymentFailed)
            },
            PaymentStatus::Failed => Err(AnsError::PaymentFailed),
        },
    }
}

} // verus!
