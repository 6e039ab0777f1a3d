use vstd::prelude::*;
use crate::account::{valid_endpoint, valid_name, DomainView, VALIDITY_PERIOD};
use crate::context::{
    BuyDomain, BuyStep, PaymentStatus, RegisterDomain, TransferDomain, UpdateDomain,
};
use crate::error::AnsError;
use crate::registry::{bought_in, committed, registered_in, valid_records, Records};
use crate::rules::{
    bought, buy_refusal, buy_result, list_for_sale_result, payment_due, register_result, registered,
    renew_result, transfer_result, unlist_result, update_endpoint_result,
};

verus! {

/// Whether `after` can have come from `before` by operations on the record:
/// the name, the category and the time of creation are those of `before`, and
/// the record expires no earlier than `before` did.
pub open spec fn continues(before: DomainView, after: DomainView) -> bool {
    &&& after.name == before.name
    &&& after.category == before.category
    &&& after.created_at == before.created_at
    &&& after.expires_at >= before.expires_at
}

/// Every record that a registration creates satisfies the invariants of a
/// record, and expires one validity period after it was created.
pub proof fn lemma_register_creates_valid_record(
    ctx: RegisterDomain,
    name: Seq<char>,
    endpoint: Seq<char>,
    category: Seq<char>,
    now: int,
)
    ensures
        register_result(ctx, name, endpoint, category, now) matches Ok(domain) ==> {
            &&& domain.wf()
            &&& domain.name == name
            &&& domain.owner == ctx.owner
            &&& domain.created_at == now
            &&& domain.expires_at == domain.created_at + 31536000
            &&& !domain.is_listed
            &&& domain.list_price == 0
        },
        register_result(ctx, name, endpoint, category, now) is Ok <==> valid_name(name)
            && valid_endpoint(endpoint),
{
}

/// Every operation on a record keeps the invariants of a record, its name,
/// its category and its time of creation, and never makes it expire earlier.
pub proof fn lemma_operations_keep_invariants(
    before: DomainView,
    transfer: TransferDomain,
    update: UpdateDomain,
    buy: BuyDomain,
    new_endpoint: Seq<char>,
    price: u64,
    now: int,
    status: PaymentStatus,
)
    requires
        before.wf(),
    ensures
        transfer_result(before, transfer) matches Ok(after) ==> after.wf() && continues(
            before,
            after,
        ),
        update_endpoint_result(before, update, new_endpoint) matches Ok(after) ==> after.wf()
            && continues(before, after),
        list_for_sale_result(before, update, price) matches Ok(after) ==> after.wf() && continues(
            before,
            after,
        ),
        unlist_result(before, update) matches Ok(after) ==> after.wf() && continues(before, after),
        renew_result(before, update, now) matches Ok(after) ==> after.wf() && continues(
            before,
            after,
        ),
        buy_result(before, buy, now, status) matches Ok((after, _)) ==> after.wf() && continues(
            before,
            after,
        ),
{
}

/// Only a transfer and a completed purchase change the owner of a record.
pub proof fn lemma_owner_changes_by_transfer_or_purchase(
    before: DomainView,
    update: UpdateDomain,
    buy: BuyDomain,
    new_endpoint: Seq<char>,
    price: u64,
    now: int,
    status: PaymentStatus,
)
    ensures
        update_endpoint_result(before, update, new_endpoint) matches Ok(after) ==> after.owner
            == before.owner,
        list_for_sale_result(before, update, price) matches Ok(after) ==> after.owner
            == before.owner,
        unlist_result(before, update) matches Ok(after) ==> after.owner == before.owner,
        renew_result(before, update, now) matches Ok(after) ==> after.owner == before.owner,
        buy_result(before, buy, now, status) matches Ok((after, step)) ==> (after.owner
            != before.owner ==> step is Done),
{
}

/// After a registration that succeeds, the name is bound to a record that is
/// not for sale, has price zero, and expires 31536000 seconds after it was
/// created. Every other name is bound as before.
pub proof fn lemma_register_then_lookup(
    records: Records,
    ctx: RegisterDomain,
    name: Seq<char>,
    endpoint: Seq<char>,
    category: Seq<char>,
    now: int,
)
    requires
        valid_name(name),
        valid_endpoint(endpoint),
        !records.contains_key(name),
    ensures
        registered_in(records, ctx, name, endpoint, category, now) matches Ok(after) && {
            &&& after.contains_key(name)
            &&& after[name] == registered(ctx, name, endpoint, category, now)
            &&& !after[name].is_listed
            &&& after[name].list_price == 0
            &&& after[name].expires_at == after[name].created_at + 31536000
            &&& forall|other: Seq<char>|
                other != name ==> after.contains_key(other) == records.contains_key(other)
                    && after[other] == records[other]
        },
{
}

/// A second registration of a name is refused with `NameAlreadyExists`,
/// whatever it asks for and whoever asks, and the record of the first
/// registration is still bound to the name.
pub proof fn lemma_register_twice(
    records: Records,
    name: Seq<char>,
    first: RegisterDomain,
    first_endpoint: Seq<char>,
    first_category: Seq<char>,
    first_now: int,
    second: RegisterDomain,
    second_endpoint: Seq<char>,
    second_category: Seq<char>,
    second_now: int,
)
    requires
        registered_in(records, first, name, first_endpoint, first_category, first_now) is Ok,
    ensures
        ({
            let after = registered_in(
                records,
                first,
                name,
                first_endpoint,
                first_category,
                first_now,
            )->Ok_0;
            &&& registered_in(after, second, name, second_endpoint, second_category, second_now)
                == Err::<Records, AnsError>(AnsError::NameAlreadyExists)
            &&& after[name] == registered(first, name, first_endpoint, first_category, first_now)
        }),
{
}

/// A transfer that succeeds leaves the record off the market with price zero,
/// whether or not it was listed before, and in the hands of the new owner.
pub proof fn lemma_transfer_unlists(before: DomainView, ctx: TransferDomain)
    ensures
        transfer_result(before, ctx) matches Ok(after) ==> {
            &&& !after.is_listed
            &&& after.list_price == 0
            &&& after.owner == ctx.new_owner
        },
        transfer_result(before, ctx) is Ok <==> ctx.owner == before.owner,
{
}

/// A purchase moves the record and the payment together or not at all. The
/// record changes only in a step that is told that the payment was made which
/// is due, the asking price from the buyer to the owner, and then the buyer
/// owns the record and the record is off the market. Every other step leaves
/// the record as it was: the step that asks for the payment, a step that is
/// told of no payment, of a failed one or of another one, and a step that is
/// refused by one of the checks.
pub proof fn lemma_buy_all_or_nothing(
    before: DomainView,
    ctx: BuyDomain,
    now: int,
    status: PaymentStatus,
)
    ensures
        match buy_result(before, ctx, now, status) {
            Ok((after, BuyStep::Done)) => {
                &&& status == PaymentStatus::Settled(payment_due(before, ctx))
                &&& after.owner == ctx.buyer
                &&& !after.is_listed
                &&& after.list_price == 0
            },
            Ok((after, BuyStep::Pay(payment))) => {
                &&& status is Pending
                &&& after == before
                &&& payment.from == ctx.buyer
                &&& payment.to == before.owner
                &&& payment.amount == before.list_price
            },
            Err(e) => status is Failed || (status matches PaymentStatus::Settled(payment)
                && payment != payment_due(before, ctx)) || Some(e) == buy_refusal(
                before,
                ctx,
                now,
            ),
        },
        buy_result(before, ctx, now, status) matches Ok((after, _)) ==> (after != before
            ==> status == PaymentStatus::Settled(payment_due(before, ctx))),
{
}

/// A purchase for which a payment was asked completes when that payment is
/// reported as made at the same time, and is refused with `PaymentFailed`
/// when the payment is reported as failed.
pub proof fn lemma_buy_follows_payment(before: DomainView, ctx: BuyDomain, now: int)
    requires
        buy_result(before, ctx, now, PaymentStatus::Pending) is Ok,
    ensures
        buy_result(before, ctx, now, PaymentStatus::Pending) == Ok::<
            (DomainView, BuyStep),
            AnsError,
        >((before, BuyStep::Pay(payment_due(before, ctx)))),
        buy_result(before, ctx, now, PaymentStatus::Settled(payment_due(before, ctx))) == Ok::<
            (DomainView, BuyStep),
            AnsError,
        >((bought(before, ctx), BuyStep::Done)),
        buy_result(before, ctx, now, PaymentStatus::Failed) == Err::<
            (DomainView, BuyStep),
            AnsError,
        >(AnsError::PaymentFailed),
{
}

/// A record that has expired cannot be bought, whatever is reported of the
/// payment: every step is refused. Where the buyer names the owner as the
/// seller and the record is listed, the refusal is `DomainExpired`.
pub proof fn lemma_expired_cannot_be_bought(
    before: DomainView,
    ctx: BuyDomain,
    now: int,
    status: PaymentStatus,
)
    requires
        before.expires_at <= now,
    ensures
        buy_result(before, ctx, now, status) is Err,
        ctx.seller == before.owner && before.is_listed ==> buy_result(before, ctx, now, status)
            == Err::<(DomainView, BuyStep), AnsError>(AnsError::DomainExpired),
{
}

/// A renewal never makes a record expire earlier: it makes it expire at least
/// one validity period later than before, and at least one validity period
/// after the time of the renewal.
pub proof fn lemma_renew_extends(before: DomainView, ctx: UpdateDomain, now: int)
    ensures
        renew_result(before, ctx, now) matches Ok(after) ==> {
            &&& after.expires_at >= before.expires_at + VALIDITY_PERIOD
            &&& after.expires_at >= now + VALIDITY_PERIOD
            &&& !after.expired_at(now)
        },
        renew_result(before, ctx, now) is Ok <==> ctx.owner == before.owner,
{
}

/// Two renewals of a record, each made before the record expires, add two
/// validity periods to the expiry that the record had at first.
pub proof fn lemma_renew_twice(
    before: DomainView,
    ctx: UpdateDomain,
    first_now: int,
    second_now: int,
)
    requires
        ctx.owner == before.owner,
        !before.expired_at(first_now),
        second_now < before.expires_at + VALIDITY_PERIOD,
    ensures
        renew_result(before, ctx, first_now) matches Ok(between) && renew_result(
            between,
            ctx,
            second_now,
        ) matches Ok(after) && after.expires_at == before.expires_at + 2 * VALIDITY_PERIOD,
{
}

/// A listing at price zero, asked for by the owner, is refused with
/// `InvalidPrice`.
pub proof fn lemma_zero_price_refused(before: DomainView, ctx: UpdateDomain)
    requires
        ctx.owner == before.owner,
    ensures
        list_for_sale_result(before, ctx, 0) == Err::<DomainView, AnsError>(
            AnsError::InvalidPrice,
        ),
{
}

/// A caller who is not the owner of a record can neither hand it over, nor
/// change its endpoint, nor list it, nor take it off the market, nor renew
/// it: each is refused with `Unauthorized`, whatever else is asked for.
pub proof fn lemma_only_the_owner(
    before: DomainView,
    transfer: TransferDomain,
    update: UpdateDomain,
    new_endpoint: Seq<char>,
    price: u64,
    now: int,
)
    requires
        transfer.owner != before.owner,
        update.owner != before.owner,
    ensures
        transfer_result(before, transfer) == Err::<DomainView, AnsError>(AnsError::Unauthorized),
        update_endpoint_result(before, update, new_endpoint) == Err::<DomainView, AnsError>(
            AnsError::Unauthorized,
        ),
        list_for_sale_result(before, update, price) == Err::<DomainView, AnsError>(
            AnsError::Unauthorized,
        ),
        unlist_result(before, update) == Err::<DomainView, AnsError>(AnsError::Unauthorized),
        renew_result(before, update, now) == Err::<DomainView, AnsError>(AnsError::Unauthorized),
{
}

/// Taking a record off the market twice is the same as taking it off once.
pub proof fn lemma_unlist_is_idempotent(before: DomainView, ctx: UpdateDomain)
    ensures
        unlist_result(before, ctx) matches Ok(after) ==> unlist_result(after, ctx) == Ok::<
            DomainView,
            AnsError,
        >(after),
        !before.is_listed && before.wf() ==> (unlist_result(before, ctx) matches Ok(after)
            ==> after == before),
{
}

/// An operation on the record bound to one name leaves every other name bound
/// as it was, adds no name and removes none, and keeps the records valid.
pub proof fn lemma_one_record_touched(
    records: Records,
    name: Seq<char>,
    outcome: Result<DomainView, AnsError>,
)
    requires
        valid_records(records),
        outcome matches Ok(after) ==> after.wf() && after.name == name,
    ensures
        committed(records, name, outcome) matches Ok(next) ==> {
            &&& valid_records(next)
            &&& next.dom() == records.dom()
            &&& forall|other: Seq<char>| other != name ==> next[other] == records[other]
        },
        committed(records, name, outcome) is Ok <==> records.contains_key(name) && outcome is Ok,
{
    if committed(records, name, outcome) is Ok {
        let next = committed(records, name, outcome)->Ok_0;
        assert(next.dom() =~= records.dom());
    }
}

/// A purchase in a registry is the purchase of the record bound to the name:
/// an unbound name is refused with `NotFound`, and otherwise the step is the
/// one that the record allows.
pub proof fn lemma_buy_in_registry(
    records: Records,
    name: Seq<char>,
    ctx: BuyDomain,
    now: int,
    status: PaymentStatus,
)
    ensures
        !records.contains_key(name) ==> bought_in(records, name, ctx, now, status) == Err::<
            (Records, BuyStep),
            AnsError,
        >(AnsError::NotFound),
        records.contains_key(name) ==> (bought_in(records, name, ctx, now, status) is Ok
            <==> buy_result(records[name], ctx, now, status) is Ok),
        bought_in(records, name, ctx, now, status) matches Ok((next, step)) ==> (next != records
            ==> step is Done),
{
    if bought_in(records, name, ctx, now, status) is Ok {
        let (next, step) = bought_in(records, name, ctx, now, status)->Ok_0;
        if !(step is Done) {
            assert(next =~= records);
        }
    }
}

} // verus!
