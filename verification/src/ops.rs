use vstd::prelude::*;
use vstd::string::StrSliceExecFns;
use crate::account::{
    valid_endpoint, valid_name, DomainAccount, MAX_ENDPOINT_LEN, MAX_NAME_LEN, MIN_NAME_LEN,
    VALIDITY_PERIOD,
};
use crate::context::{
    BuyDomain, BuyStep, Payment, PaymentStatus, RegisterDomain, TransferDomain, UpdateDomain,
};
use crate::error::AnsError;
use crate::rules::{
    buy_result, later, list_for_sale_result, payment_due, register_result, renew_result,
    transfer_result, unlist_result, update_endpoint_result,
};

verus! {

/// Creates the record for `name` at time `now`.
///
/// The record is owned by the caller, carries the given endpoint and
/// category, is valid for one validity period from `now`, and is not for
/// sale. A name of fewer than 3 or more than 32 characters is refused, and
/// then an endpoint of more than 256 characters.
pub fn register_domain(
    ctx: &RegisterDomain,
    name: String,
    endpoint: String,
    category: String,
    now: i64,
) -> (r: Result<DomainAccount, AnsError>)
    requires
        valid_name(name@) && valid_endpoint(endpoint@) ==> now + VALIDITY_PERIOD <= i64::MAX,
    ensures
        match register_result(*ctx, name@, endpoint@, category@, now as int) {
            Ok(rec) => r matches Ok(domain) && domain@ == rec,
            Err(e) => r == Err::<DomainAccount, AnsError>(e),
        },
        r is Ok <==> valid_name(name@) && valid_endpoint(endpoint@),
        r matches Ok(domain) ==> !domain.is_listed && domain.list_price == 0 && domain.expires_at
            == domain.created_at + 31536000,
{
    let name_len: usize = name.as_str().unicode_len();
    if name_len < MIN_NAME_LEN || name_len > MAX_NAME_LEN {
        return Err(AnsError::InvalidNameLength);
    }
    if endpoint.as_str().unicode_len() > MAX_ENDPOINT_LEN {
        return Err(AnsError::EndpointTooLong);
    }
    Ok(
        DomainAccount {
            name,
            owner: ctx.owner,
            endpoint,
            category,
            created_at: now,
            expires_at: now + VALIDITY_PERIOD,
            is_listed: false,
            list_price: 0,
        },
    )
}

/// Hands the record over to `ctx.new_owner`.
///
/// Only the owner may do so. The record leaves the market whether or not it
/// was listed: its new owner has not agreed to the old listing. An expired
/// record can be handed over like any other.
pub fn transfer_domain(domain: &mut DomainAccount, ctx: &TransferDomain) -> (r: Result<
    (),
    AnsError,
>)
    ensures
        match transfer_result(old(domain)@, *ctx) {
            Ok(next) => r is Ok && final(domain)@ == next,
            Err(e) => r == Err::<(), AnsError>(e) && *final(domain) == *old(domain),
        },
        r is Ok <==> ctx.owner == old(domain).owner,
        r is Ok ==> !final(domain).is_listed && final(domain).list_price == 0,
{
    if ctx.owner != domain.owner {
        return Err(AnsError::Unauthorized);
    }
    domain.owner = ctx.new_owner;
    domain.is_listed = false;
    domain.list_price = 0;
    Ok(())
}

/// Replaces the endpoint of the record.
///
/// Only the owner may do so, and the new endpoint may have at most 256
/// characters. Nothing else changes, the listing included.
pub fn update_endpoint(domain: &mut DomainAccount, ctx: &UpdateDomain, new_endpoint: String) -> (r:
    Result<(), AnsError>)
    ensures
        match update_endpoint_result(old(domain)@, *ctx, new_endpoint@) {
            Ok(next) => r is Ok && final(domain)@ == next,
            Err(e) => r == Err::<(), AnsError>(e) && *final(domain) == *old(domain),
        },
        r is Ok <==> ctx.owner == old(domain).owner && valid_endpoint(new_endpoint@),
{
    if ctx.owner != domain.owner {
        return Err(AnsError::Unauthorized);
    }
    if new_endpoint.as_str().unicode_len() > MAX_ENDPOINT_LEN {
        return Err(AnsError::EndpointTooLong);
    }
    domain.endpoint = new_endpoint;
    Ok(())
}

/// Offers the record for sale at `price_lamports`.
///
/// Only the owner may do so, and the price has to be positive. A record that
/// is listed already is listed anew at the new price.
pub fn list_for_sale(domain: &mut DomainAccount, ctx: &UpdateDomain, price_lamports: u64) -> (r:
    Result<(), AnsError>)
    ensures
        match list_for_sale_result(old(domain)@, *ctx, price_lamports) {
            Ok(next) => r is Ok && final(domain)@ == next,
            Err(e) => r == Err::<(), AnsError>(e) && *final(domain) == *old(domain),
        },
        r is Ok <==> ctx.owner == old(domain).owner && price_lamports > 0,
        ctx.owner == old(domain).owner && price_lamports == 0 ==> r == Err::<(), AnsError>(
            AnsError::InvalidPrice,
        ),
{
    if ctx.owner != domain.owner {
        return Err(AnsError::Unauthorized);
    }
    if price_lamports == 0 {
        return Err(AnsError::InvalidPrice);
    }
    domain.is_listed = true;
    domain.list_price = price_lamports;
    Ok(())
}

/// Takes the record off the market.
///
/// Only the owner may do so. On a record that is not listed this succeeds
/// and changes nothing.
pub fn unlist(domain: &mut DomainAccount, ctx: &UpdateDomain) -> (r: Result<(), AnsError>)
    ensures
        match unlist_result(old(domain)@, *ctx) {
            Ok(next) => r is Ok && final(domain)@ == next,
            Err(e) => r == Err::<(), AnsError>(e) && *final(domain) == *old(domain),
        },
        r is Ok <==> ctx.owner == old(domain).owner,
{
    if ctx.owner != domain.owner {
        return Err(AnsError::Unauthorized);
    }
    domain.is_listed = false;
    domain.list_price = 0;
    Ok(())
}

/// Extends the validity of the record by one validity period.
///
/// Only the owner may do so. The period is added to the record's expiry, or
/// to `now` if the record had expired before: time that is left is kept, and
/// time that has lapsed is not made up for.
pub fn renew_domain(domain: &mut DomainAccount, ctx: &UpdateDomain, now: i64) -> (r: Result<
    (),
    AnsError,
>)
    requires
        ctx.owner == old(domain).owner ==> later(old(domain).expires_at as int, now as int)
            + VALIDITY_PERIOD <= i64::MAX,
    ensures
        match renew_result(old(domain)@, *ctx, now as int) {
            Ok(next) => r is Ok && final(domain)@ == next,
            Err(e) => r == Err::<(), AnsError>(e) && *final(domain) == *old(domain),
        },
        r is Ok <==> ctx.owner == old(domain).owner,
        final(domain).expires_at >= old(domain).expires_at,
{
    if ctx.owner != domain.owner {
        return Err(AnsError::Unauthorized);
    }
    let base: i64 = if domain.expires_at >= now {
        domain.expires_at
    } else {
        now
    };
    domain.expires_at = base + VALIDITY_PERIOD;
    Ok(())
}

/// One step of the purchase of a listed record.
///
/// A purchase couples a payment with a change of owner, and the payment is
/// made by the caller, outside this function. So a purchase takes two calls.
/// The first, with `PaymentStatus::Pending`, checks the purchase and answers
/// with the payment to make: the asking price, from the buyer to the owner.
/// The caller makes that payment and calls again: with `Settled` and the
/// payment if it went through, with `Failed` if it did not.
///
/// Only a call with `Settled` and the payment that is due changes the record:
/// the buyer becomes the owner and the record is taken off the market. Every
/// other call leaves the record as it was. A call with `Failed`, or with
/// `Settled` and another payment than the one that is due, is refused with
/// `PaymentFailed`.
///
/// Every call makes the same checks first, in this order: the seller that the
/// buyer names is the owner (`WrongSeller`), the record is listed
/// (`NotForSale`), and it has not expired (`DomainExpired`).
pub fn buy_domain(
    domain: &mut DomainAccount,
    ctx: &BuyDomain,
    now: i64,
    status: PaymentStatus,
) -> (r: Result<BuyStep, AnsError>)
    ensures
        match buy_result(old(domain)@, *ctx, now as int, status) {
            Ok((next, step)) => r == Ok::<BuyStep, AnsError>(step) && final(domain)@ == next,
            Err(e) => r == Err::<BuyStep, AnsError>(e),
        },
        !(r matches Ok(BuyStep::Done)) ==> *final(domain) == *old(domain),
        r matches Ok(BuyStep::Done) ==> {
            &&& status == PaymentStatus::Settled(payment_due(old(domain)@, *ctx))
            &&& final(domain).owner == ctx.buyer
            &&& !final(domain).is_listed
            &&& final(domain).list_price == 0
        },
        old(domain).expires_at <= now ==> r is Err,
{
    if ctx.seller != domain.owner {
        return Err(AnsError::WrongSeller);
    }
    if !domain.is_listed {
        return Err(AnsError::NotForSale);
    }
    if domain.expires_at <= now {
        return Err(AnsError::DomainExpired);
    }
    match status {
        PaymentStatus::Pending => Ok(
            BuyStep::Pay(Payment { from: ctx.buyer, to: domain.owner, amount: domain.list_price }),
        ),
        PaymentStatus::Settled(payment) => {
            if payment.from != ctx.buyer || payment.to != domain.owner || payment.amount
                != domain.list_price {
                return Err(AnsError::PaymentFailed);
            }
            domain.owner = ctx.buyer;
            domain.is_listed = false;
            domain.list_price = 0;
            Ok(BuyStep::Done)
        },
        PaymentStatus::Failed => Err(AnsError::PaymentFailed),
    }
}

} // verus!
