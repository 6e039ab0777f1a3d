use vstd::prelude::*;
use crate::account::{valid_endpoint, valid_name, DomainAccount, DomainView, VALIDITY_PERIOD};
use crate::context::{
    BuyDomain, BuyStep, PaymentStatus, RegisterDomain, TransferDomain, UpdateDomain,
};
use crate::error::AnsError;
use crate::ops::{
    buy_domain, list_for_sale, register_domain, renew_domain, transfer_domain, unlist,
    update_endpoint,
};
use crate::rules::{
    buy_result, later, list_for_sale_result, register_result, renew_result, transfer_result,
    unlist_result, update_endpoint_result,
};

verus! {

/// The records of a registry as a mathematical value: each name that is bound,
/// with its record.
pub type Records = Map<Seq<char>, DomainView>;

/// What holds of the records of every registry: each record is bound to its
/// own name and satisfies the invariants of a record.
pub open spec fn valid_records(records: Records) -> bool {
    forall|name: Seq<char>| #[trigger]
        records.contains_key(name) ==> records[name].name == name && records[name].wf()
}

/// The records after an operation on the record bound to `name`, where
/// `outcome` is what the operation makes of that record: the record is
/// replaced if the operation succeeds, and an unbound name is refused before
/// anything else.
pub open spec fn committed(records: Records, name: Seq<char>, outcome: Result<DomainView, AnsError>)
    -> Result<Records, AnsError> {
    if !records.contains_key(name) {
        Err(AnsError::NotFound)
    } else {
        match outcome {
            Ok(next) => Ok(records.insert(name, next)),
            Err(e) => Err(e),
        }
    }
}

/// The records after a registration of `name`: the new record is added, and
/// a name that is bound already is refused before anything else.
pub open spec fn registered_in(
    records: Records,
    ctx: RegisterDomain,
    name: Seq<char>,
    endpoint: Seq<char>,
    category: Seq<char>,
    now: int,
) -> Result<Records, AnsError> {
    if records.contains_key(name) {
        Err(AnsError::NameAlreadyExists)
    } else {
        match register_result(ctx, name, endpoint, category, now) {
            Ok(domain) => Ok(records.insert(name, domain)),
            Err(e) => Err(e),
        }
    }
}

/// The records after one step of a purchase of the record bound to `name`,
/// and what the caller is to do next.
pub open spec fn bought_in(
    records: Records,
    name: Seq<char>,
    ctx: BuyDomain,
    now: int,
    status: PaymentStatus,
) -> Result<(Records, BuyStep), AnsError> {
    if !records.contains_key(name) {
        Err(AnsError::NotFound)
    } else {
        match buy_result(records[name], ctx, now, status) {
            Ok((next, step)) => Ok((records.insert(name, next), step)),
            Err(e) => Err(e),
        }
    }
}

/// Whether no two of `records` have the same name.
spec fn distinct_names(records: Seq<DomainAccount>) -> bool {
    forall|i: int, j: int|
        0 <= i < j < records.len() ==> (#[trigger] records[i]).name@ != (#[trigger] records[j]).name@
}

/// Whether one of `records` has the name `name`.
spec fn binds(records: Seq<DomainAccount>, name: Seq<char>) -> bool {
    exists|i: int| 0 <= i < records.len() && (#[trigger] records[i]).name@ == name
}

/// The place of a record with the name `name` among `records`.
spec fn place_of(records: Seq<DomainAccount>, name: Seq<char>) -> int {
    choose|i: int| 0 <= i < records.len() && (#[trigger] records[i]).name@ == name
}

/// The map from names to records that `records` stands for.
spec fn records_of(records: Seq<DomainAccount>) -> Records {
    Map::new(
        |name: Seq<char>| binds(records, name),
        |name: Seq<char>| records[place_of(records, name)]@,
    )
}

/// With distinct names, the record with a given name is found at its place.
proof fn lemma_place_of(records: Seq<DomainAccount>, i: int)
    requires
        distinct_names(records),
        0 <= i < records.len(),
    ensures
        binds(records, records[i].name@),
        place_of(records, records[i].name@) == i,
{
    let name = records[i].name@;
    let p = place_of(records, name);
    assert(0 <= p < records.len() && records[p].name@ == name);
    if p < i {
        assert(records[p].name@ != records[i].name@);
    } else if i < p {
        assert(records[i].name@ != records[p].name@);
    }
}

/// Replacing one record by one of the same name replaces it in the map.
proof fn lemma_records_of_update(before: Seq<DomainAccount>, i: int, next: DomainAccount)
    requires
        distinct_names(before),
        0 <= i < before.len(),
        next.name@ == before[i].name@,
    ensures
        distinct_names(before.update(i, next)),
        records_of(before.update(i, next)) == records_of(before).insert(next.name@, next@),
{
    let after = before.update(i, next);
    assert forall|a: int, b: int| 0 <= a < b < after.len() implies (#[trigger] after[a]).name@
        != (#[trigger] after[b]).name@ by {
        assert(after[a].name@ == before[a].name@);
        assert(after[b].name@ == before[b].name@);
    }
    assert forall|name: Seq<char>| binds(after, name) == binds(before, name) by {
        if binds(before, name) {
            let p = place_of(before, name);
            assert(after[p].name@ == name);
        }
        if binds(after, name) {
            let p = place_of(after, name);
            assert(before[p].name@ == name);
        }
    }
    assert forall|name: Seq<char>| binds(after, name) implies #[trigger] records_of(after)[name]
        == records_of(before).insert(next.name@, next@)[name] by {
        let p = place_of(after, name);
        lemma_place_of(after, p);
        assert(before[p].name@ == name);
        lemma_place_of(before, p);
        if p == i {
        } else {
            lemma_place_of(before, i);
        }
    }
    lemma_place_of(before, i);
    assert(records_of(after) =~= records_of(before).insert(next.name@, next@));
}

/// Adding a record under a name that is not bound adds it to the map.
proof fn lemma_records_of_push(before: Seq<DomainAccount>, next: DomainAccount)
    requires
        distinct_names(before),
        !binds(before, next.name@),
    ensures
        distinct_names(before.push(next)),
        records_of(before.push(next)) == records_of(before).insert(next.name@, next@),
{
    let after = before.push(next);
    assert forall|a: int, b: int| 0 <= a < b < after.len() implies (#[trigger] after[a]).name@
        != (#[trigger] after[b]).name@ by {
        assert(after[a] == before[a]);
        if b < before.len() {
            assert(after[b] == before[b]);
        }
    }
    assert forall|name: Seq<char>| binds(after, name) == (binds(before, name) || name
        == next.name@) by {
        if binds(before, name) {
            let p = place_of(before, name);
            assert(after[p].name@ == name);
        }
        if name == next.name@ {
            assert(after[before.len() as int].name@ == name);
        }
        if binds(after, name) {
            let p = place_of(after, name);
            if p < before.len() {
                assert(before[p].name@ == name);
            }
        }
    }
    assert forall|name: Seq<char>| binds(after, name) implies #[trigger] records_of(after)[name]
        == records_of(before).insert(next.name@, next@)[name] by {
        let p = place_of(after, name);
        lemma_place_of(after, p);
        if p < before.len() {
            assert(before[p] == after[p]);
            lemma_place_of(before, p);
        }
    }
    assert(records_of(after) =~= records_of(before).insert(next.name@, next@));
}

/// The records that a registry holds, each under its name.
pub struct Registry {
    records: Vec<DomainAccount>,
}

impl View for Registry {
    type V = Records;

    closed spec fn view(&self) -> Records {
        records_of(self.records@)
    }
}

impl Registry {
    #[verifier::type_invariant]
    spec fn inv(self) -> bool {
        &&& distinct_names(self.records@)
        &&& forall|i: int| 0 <= i < self.records@.len() ==> (#[trigger] self.records@[i])@.wf()
    }

    /// A registry in which no name is bound.
    pub fn new() -> (registry: Registry)
        ensures
            registry@ == Map::<Seq<char>, DomainView>::empty(),
    {
        let registry = Registry { records: Vec::new() };
        assert(registry@ =~= Map::<Seq<char>, DomainView>::empty());
        registry
    }

    /// Takes the records out of the registry, which is left empty until they
    /// are put back.
    fn take(&mut self) -> (records: Vec<DomainAccount>)
        ensures
            records == old(self).records,
            final(self).records@.len() == 0,
    {
        let mut records: Vec<DomainAccount> = Vec::new();
        std::mem::swap(&mut records, &mut self.records);
        records
    }

    /// Where the record bound to `name` stands, if there is one.
    fn find(&self, name: &String) -> (found: Option<usize>)
        ensures
            match found {
                Some(i) => i < self.records@.len() && self.records@[i as int].name@ == name@,
                None => !binds(self.records@, name@),
            },
    {
        let mut i: usize = 0;
        while i < self.records.len()
            invariant
                i <= self.records@.len(),
                forall|j: int| 0 <= j < i ==> (#[trigger] self.records@[j]).name@ != name@,
            decreases self.records@.len() - i,
        {
            if self.records[i].name == *name {
                return Some(i);
            }
            i += 1;
        }
        None
    }

    /// The record bound to `name`, if there is one.
    pub fn lookup(&self, name: &String) -> (found: Option<&DomainAccount>)
        ensures
            valid_records(self@),
            match found {
                Some(domain) => self@.contains_key(name@) && domain@ == self@[name@],
                None => !self@.contains_key(name@),
            },
    {
        proof {
            use_type_invariant(self);
            self.lemma_valid();
        }
        match self.find(name) {
            Some(i) => {
                proof {
                    lemma_place_of(self.records@, i as int);
                }
                Some(&self.records[i])
            },
            None => None,
        }
    }

    /// Binds `name` to a new record, created at time `now` and owned by the
    /// caller.
    ///
    /// A name that is bound already is refused with `NameAlreadyExists`, and
    /// the record it is bound to stays as it is. Then the name and the
    /// endpoint are checked as `register_domain` checks them.
    pub fn register(
        &mut self,
        ctx: &RegisterDomain,
        name: String,
        endpoint: String,
        category: String,
        now: i64,
    ) -> (r: Result<(), AnsError>)
        requires
            valid_name(name@) && valid_endpoint(endpoint@) ==> now + VALIDITY_PERIOD <= i64::MAX,
        ensures
            valid_records(final(self)@),
            match registered_in(old(self)@, *ctx, name@, endpoint@, category@, now as int) {
                Ok(records) => r is Ok && final(self)@ == records,
                Err(e) => r == Err::<(), AnsError>(e) && final(self)@ == old(self)@,
            },
    {
        proof {
            use_type_invariant(&*self);
            self.lemma_valid();
        }
        if self.find(&name).is_some() {
            return Err(AnsError::NameAlreadyExists);
        }
        match register_domain(ctx, name, endpoint, category, now) {
            Ok(domain) => {
                proof {
                    lemma_records_of_push(self.records@, domain);
                }
                let mut records = self.take();
                records.push(domain);
                self.records = records;
                proof {
                    self.lemma_valid();
                }
                Ok(())
            },
            Err(e) => Err(e),
        }
    }

    /// Hands the record bound to `name` over to `ctx.new_owner`, as
    /// `transfer_domain` does.
    pub fn transfer(&mut self, name: &String, ctx: &TransferDomain) -> (r: Result<(), AnsError>)
        ensures
            valid_records(final(self)@),
            match committed(old(self)@, name@, transfer_result(old(self)@[name@], *ctx)) {
                Ok(records) => r is Ok && final(self)@ == records,
                Err(e) => r == Err::<(), AnsError>(e) && final(self)@ == old(self)@,
            },
    {
        proof {
            use_type_invariant(&*self);
            self.lemma_valid();
        }
        match self.find(name) {
            Some(i) => {
                let ghost before = self.records@;
                proof {
                    lemma_place_of(before, i as int);
                }
                let mut records = self.take();
                let r = transfer_domain(&mut records[i], ctx);
                proof {
                    lemma_records_of_update(before, i as int, records@[i as int]);
                    assert(r is Err ==> records@ =~= before);
                }
                self.records = records;
                proof {
                    self.lemma_valid();
                }
                r
            },
            None => Err(AnsError::NotFound),
        }
    }

    /// Replaces the endpoint of the record bound to `name`, as
    /// `update_endpoint` does.
    pub fn update_endpoint(&mut self, name: &String, ctx: &UpdateDomain, new_endpoint: String) -> (r: Result<(), AnsError>)
        ensures
            valid_records(final(self)@),
            match committed(old(self)@, name@, update_endpoint_result(old(self)@[name@], *ctx, new_endpoint@)) {
                Ok(records) => r is Ok && final(self)@ == records,
                Err(e) => r == Err::<(), AnsError>(e) && final(self)@ == old(self)@,
            },
    {
        proof {
            use_type_invariant(&*self);
            self.lemma_valid();
        }
        match self.find(name) {
            Some(i) => {
                let ghost before = self.records@;
                proof {
                    lemma_place_of(before, i as int);
                }
                let mut records = self.take();
                let r = update_endpoint(&mut records[i], ctx, new_endpoint);
                proof {
                    lemma_records_of_update(before, i as int, records@[i as int]);
                    assert(r is Err ==> records@ =~= before);
                }
                self.records = records;
                proof {
                    self.lemma_valid();
                }
                r
            },
            None => Err(AnsError::NotFound),
        }
    }

    /// Offers the record bound to `name` for sale at `price_lamports`, as
    /// `list_for_sale` does.
    pub fn list_for_sale(&mut self, name: &String, ctx: &UpdateDomain, price_lamports: u64) -> (r: Result<(), AnsError>)
        ensures
            valid_records(final(self)@),
            match committed(old(self)@, name@, list_for_sale_result(old(self)@[name@], *ctx, price_lamports)) {
                Ok(records) => r is Ok && final(self)@ == records,
                Err(e) => r == Err::<(), AnsError>(e) && final(self)@ == old(self)@,
            },
    {
        proof {
            use_type_invariant(&*self);
            self.lemma_valid();
        }
        match self.find(name) {
            Some(i) => {
                let ghost before = self.records@;
                proof {
                    lemma_place_of(before, i as int);
                }
                let mut records = self.take();
                let r = list_for_sale(&mut records[i], ctx, price_lamports);
                proof {
                    lemma_records_of_update(before, i as int, records@[i as int]);
                    assert(r is Err ==> records@ =~= before);
                }
                self.records = records;
                proof {
                    self.lemma_valid();
                }
                r
            },
            None => Err(AnsError::NotFound),
        }
    }

    /// Takes the record bound to `name` off the market, as `unlist` does.
    pub fn unlist(&mut self, name: &String, ctx: &UpdateDomain) -> (r: Result<(), AnsError>)
        ensures
            valid_records(final(self)@),
            match committed(old(self)@, name@, unlist_result(old(self)@[name@], *ctx)) {
                Ok(records) => r is Ok && final(self)@ == records,
                Err(e) => r == Err::<(), AnsError>(e) && final(self)@ == old(self)@,
            },
    {
        proof {
            use_type_invariant(&*self);
            self.lemma_valid();
        }
        match self.find(name) {
            Some(i) => {
                let ghost before = self.records@;
                proof {
                    lemma_place_of(before, i as int);
                }
                let mut records = self.take();
                let r = unlist(&mut records[i], ctx);
                proof {
                    lemma_records_of_update(before, i as int, records@[i as int]);
                    assert(r is Err ==> records@ =~= before);
                }
                self.records = records;
                proof {
                    self.lemma_valid();
                }
                r
            },
            None => Err(AnsError::NotFound),
        }
    }

    /// Extends the validity of the record bound to `name` by one validity
    /// period, as `renew_domain` does.
    pub fn renew(&mut self, name: &String, ctx: &UpdateDomain, now: i64) -> (r: Result<(), AnsError>)
        requires
            old(self)@.contains_key(name@) && old(self)@[name@].owner == ctx.owner ==> later(
                old(self)@[name@].expires_at,
                now as int,
            ) + VALIDITY_PERIOD <= i64::MAX,
        ensures
            valid_records(final(self)@),
            match committed(old(self)@, name@, renew_result(old(self)@[name@], *ctx, now as int)) {
                Ok(records) => r is Ok && final(self)@ == records,
                Err(e) => r == Err::<(), AnsError>(e) && final(self)@ == old(self)@,
            },
    {
        proof {
            use_type_invariant(&*self);
            self.lemma_valid();
        }
        match self.find(name) {
            Some(i) => {
                let ghost before = self.records@;
                proof {
                    lemma_place_of(before, i as int);
                }
                let mut records = self.take();
                let r = renew_domain(&mut records[i], ctx, now);
                proof {
                    lemma_records_of_update(before, i as int, records@[i as int]);
                    assert(r is Err ==> records@ =~= before);
                }
                self.records = records;
                proof {
                    self.lemma_valid();
                }
                r
            },
            None => Err(AnsError::NotFound),
        }
    }

    /// One step of the purchase of the record bound to `name`, as `buy_domain`
    /// takes it.
    pub fn buy(&mut self, name: &String, ctx: &BuyDomain, now: i64, status: PaymentStatus) -> (r:
        Result<BuyStep, AnsError>)
        ensures
            valid_records(final(self)@),
            match bought_in(old(self)@, name@, *ctx, now as int, status) {
                Ok((records, step)) => r == Ok::<BuyStep, AnsError>(step) && final(self)@
                    == records,
                Err(e) => r == Err::<BuyStep, AnsError>(e) && final(self)@ == old(self)@,
            },
    {
        proof {
            use_type_invariant(&*self);
            self.lemma_valid();
        }
        match self.find(name) {
            Some(i) => {
                let ghost before = self.records@;
                proof {
                    lemma_place_of(before, i as int);
                }
                let mut records = self.take();
                let r = buy_domain(&mut records[i], ctx, now, status);
                proof {
                    lemma_records_of_update(before, i as int, records@[i as int]);
                    assert(!(r matches Ok(BuyStep::Done)) ==> records@ =~= before);
                    assert(r matches Ok(BuyStep::Pay(_)) ==> old(self)@.insert(
                        name@,
                        old(self)@[name@],
                    ) =~= old(self)@);
                }
                self.records = records;
                proof {
                    self.lemma_valid();
                }
                r
            },
            None => Err(AnsError::NotFound),
        }
    }

    /// The invariant of the registry, said of its records as a map.
    proof fn lemma_valid(&self)
        requires
            self.inv(),
        ensures
            valid_records(self@),
    {
        assert forall|name: Seq<char>| #[trigger] self@.contains_key(name) implies self@[name].name
            == name && self@[name].wf() by {
            let p = place_of(self.records@, name);
            assert(self.records@[p].name@ == name);
        }
    }
}

} // verus!
