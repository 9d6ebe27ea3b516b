//! Read-only projections over the offer store: one offer by id, and the ids
//! of open offers by creator and by designated counterparty, in creation
//! order. Queries never mutate and need no authorization.

use vstd::prelude::*;

use crate::asset::{Address, Counterparty};
use crate::error::EscrowError;
use crate::offer::OfferRecord;
use crate::store::OfferStore;

verus! {

/// The ids of the records satisfying `pred`, in the order the records stand.
pub open spec fn ids_where(entries: Seq<OfferRecord>, pred: spec_fn(OfferRecord) -> bool) -> Seq<
    u32,
>
    decreases entries.len(),
{
    if entries.len() == 0 {
        Seq::empty()
    } else {
        let rest = ids_where(entries.drop_last(), pred);
        if pred(entries.last()) {
            rest.push(entries.last().id)
        } else {
            rest
        }
    }
}

/// The predicate of the creator listing: records created by `a`.
pub open spec fn by_creator(a: Seq<u8>) -> spec_fn(OfferRecord) -> bool {
    |r: OfferRecord| r.creator@ == a
}

/// The predicate of the counterparty listing: records naming `a` as their
/// designated counterparty.
pub open spec fn by_counterparty(a: Seq<u8>) -> spec_fn(OfferRecord) -> bool {
    |r: OfferRecord| r.wanted_by(a)
}

/// The ids of the records created by `a`, in the order the records stand.
pub open spec fn created_ids(entries: Seq<OfferRecord>, a: Seq<u8>) -> Seq<u32> {
    ids_where(entries, by_creator(a))
}

/// The ids of the records naming `a` as designated counterparty, in the
/// order the records stand. Offers open to any address are never listed.
pub open spec fn wanted_ids(entries: Seq<OfferRecord>, a: Seq<u8>) -> Seq<u32> {
    ids_where(entries, by_counterparty(a))
}

/// Looks one offer up by id; an absent id — never created, already settled
/// or already cancelled — is `NotFound`.
pub fn offer(store: &OfferStore, id: u32) -> (r: Result<&OfferRecord, EscrowError>)
    requires
        store.wf(),
    ensures
        match r {
            Result::Ok(rec) => store.contains_id(id) && *rec == store.record(id),
            Result::Err(e) => !store.contains_id(id) && e == EscrowError::NotFound,
        },
{
    match store.get(id) {
        Some(rec) => Ok(rec),
        None => Err(EscrowError::NotFound),
    }
}

/// The ids of the offers created by `address`, in creation order.
pub fn created_offers(store: &OfferStore, address: &Address) -> (r: Vec<u32>)
    ensures
        r@ == created_ids(store.offers@, address@),
{
    let entries = &store.offers;
    let mut r: Vec<u32> = Vec::new();
    let mut i: usize = 0;
    while i < entries.len()
        invariant
            i <= entries@.len(),
            r@ == created_ids(entries@.take(i as int), address@),
        decreases entries@.len() - i,
    {
        let ghost prefix = entries@.take(i as int + 1);
        proof {
            assert(prefix.drop_last() =~= entries@.take(i as int));
            assert(prefix.last() == entries@[i as int]);
        }
        if entries[i].creator.matches(address) {
            r.push(entries[i].id);
        }
        i = i + 1;
    }
    proof {
        assert(entries@.take(entries@.len() as int) =~= entries@);
    }
    r
}

/// The ids of the offers naming `address` as designated counterparty, in
/// creation order.
pub fn wanted_offers(store: &OfferStore, address: &Address) -> (r: Vec<u32>)
    ensures
        r@ == wanted_ids(store.offers@, address@),
{
    let entries = &store.offers;
    let mut r: Vec<u32> = Vec::new();
    let mut i: usize = 0;
    while i < entries.len()
        invariant
            i <= entries@.len(),
            r@ == wanted_ids(entries@.take(i as int), address@),
        decreases entries@.len() - i,
    {
        let ghost prefix = entries@.take(i as int + 1);
        proof {
            assert(prefix.drop_last() =~= entries@.take(i as int));
            assert(prefix.last() == entries@[i as int]);
        }
        let listed = match &entries[i].wanted_counterparty {
            Counterparty::Any => false,
            Counterparty::Specific(w) => w.matches(address),
        };
        if listed {
            r.push(entries[i].id);
        }
        i = i + 1;
    }
    proof {
        assert(entries@.take(entries@.len() as int) =~= entries@);
    }
    r
}

} // verus!
