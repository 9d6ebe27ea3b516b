//! The three mutating handlers of the contract. Each call either commits
//! every state change — custody transfer, store update — or rejects before
//! any mutation and hands the caller's payment back, so a partial escrow or
//! a partial settlement is never observable.

use vstd::prelude::*;
use vstd::pervasive::unreached;

use crate::asset::{Address, Asset, Counterparty, TokenId};
use crate::error::{AuthRole, EscrowError};
use crate::offer::OfferRecord;
use crate::store::OfferStore;

verus! {

/// A rejected payable call: the error, and the caller's payment returned
/// unmodified.
#[derive(Debug)]
pub struct Rejected {
    pub error: EscrowError,
    pub refund: Asset,
}

/// The transfers a settlement performs: the escrowed asset goes to the
/// accepting caller, the caller's payment goes to the offer's creator.
#[derive(Debug)]
pub struct Settlement {
    /// The asset that was held in custody, released to the accepting caller.
    pub asset_to_caller: Asset,
    /// The accepting caller's payment, owed to the offer's creator.
    pub payment_to_creator: Asset,
    /// The offer's creator, recipient of the payment.
    pub creator: Address,
}

/// Why an escrow payment is rejected, or `None` if it is acceptable: only a
/// non-fungible or semi-fungible instance (nonce > 0) of a positive amount
/// may be escrowed.
pub open spec fn escrow_error(payment: Asset) -> Option<EscrowError> {
    if payment.nonce == 0 || payment.amount == 0 {
        Some(EscrowError::InvalidAsset)
    } else {
        None
    }
}

/// Why an acceptance is rejected, or `None` if it may settle: the offer must
/// exist, the caller must be its designated counterparty if one is set, and
/// the payment must carry the wanted identifier and nonce. The first
/// violated condition, in that order, decides the error.
pub open spec fn accept_error(s: OfferStore, caller: Seq<u8>, payment: Asset, id: u32) -> Option<
    EscrowError,
> {
    if !s.contains_id(id) {
        Some(EscrowError::NotFound)
    } else if !s.record(id).accepts_caller(caller) {
        Some(EscrowError::Unauthorized(AuthRole::Counterparty))
    } else if !s.record(id).wanted_matches(payment) {
        Some(EscrowError::AssetMismatch)
    } else {
        None
    }
}

/// Why a cancellation is rejected, or `None` if it may proceed: the offer
/// must exist and the caller must be its creator.
pub open spec fn cancel_error(s: OfferStore, caller: Seq<u8>, id: u32) -> Option<EscrowError> {
    if !s.contains_id(id) {
        Some(EscrowError::NotFound)
    } else if s.record(id).creator@ != caller {
        Some(EscrowError::Unauthorized(AuthRole::Creator))
    } else {
        None
    }
}

/// Creates an offer: takes custody of `payment` and records the terms under
/// which it will be released. On success the new offer's id is returned; it
/// is strictly greater than the id of every offer in the store. On rejection
/// the store is untouched and the payment is returned.
pub fn escrow(
    store: &mut OfferStore,
    caller: Address,
    payment: Asset,
    wanted_identifier: TokenId,
    wanted_nonce: u64,
    wanted_counterparty: Counterparty,
) -> (r: Result<u32, Rejected>)
    requires
        old(store).wf(),
        old(store).next_id < u32::MAX,
    ensures
        final(store).wf(),
        match r {
            Result::Ok(id) => {
                &&& escrow_error(payment) is None
                &&& id == old(store).next_id
                &&& final(store).next_id == id + 1
                &&& !old(store).contains_id(id)
                &&& forall|i: int|
                    0 <= i < old(store).offers@.len() ==> (#[trigger] old(
                        store,
                    ).offers@[i]).id < id
                &&& final(store).offers@ == old(store).offers@.push(
                    (OfferRecord {
                        id,
                        creator: caller,
                        escrowed: payment,
                        wanted_identifier,
                        wanted_nonce,
                        wanted_counterparty,
                    }),
                )
                &&& final(store).contains_id(id)
                &&& final(store).record(id) == (OfferRecord {
                    id,
                    creator: caller,
                    escrowed: payment,
                    wanted_identifier,
                    wanted_nonce,
                    wanted_counterparty,
                })
                &&& forall|x: u32|
                    #[trigger] final(store).contains_id(x) <==> old(store).contains_id(x) || x
                        == id
                &&& forall|x: u32|
                    x != id && #[trigger] final(store).contains_id(x) ==> final(store).record(x)
                        == old(store).record(x)
            },
            Result::Err(rej) => {
                &&& escrow_error(payment) == Some(rej.error)
                &&& rej.refund == payment
                &&& *final(store) == *old(store)
            },
        },
{
    if payment.nonce == 0 || payment.amount == 0 {
        return Err(Rejected { error: EscrowError::InvalidAsset, refund: payment });
    }
    let id = store.insert(
        OfferRecord {
            id: 0,
            creator: caller,
            escrowed: payment,
            wanted_identifier,
            wanted_nonce,
            wanted_counterparty,
        },
    );
    Ok(id)
}

/// Settles an offer: the escrowed asset is released to the caller, the
/// caller's payment is owed to the creator, and the offer leaves the store
/// for good. On rejection the store is untouched and the payment is
/// returned.
pub fn accept(store: &mut OfferStore, caller: &Address, payment: Asset, id: u32) -> (r: Result<
    Settlement,
    Rejected,
>)
    requires
        old(store).wf(),
    ensures
        final(store).wf(),
        final(store).next_id == old(store).next_id,
        match r {
            Result::Ok(st) => {
                &&& accept_error(*old(store), caller@, payment, id) is None
                &&& st.asset_to_caller == old(store).record(id).escrowed
                &&& st.payment_to_creator == payment
                &&& st.creator == old(store).record(id).creator
                &&& final(store).offers@ == old(store).offers@.remove(old(store).index_of(id))
                &&& !final(store).contains_id(id)
                &&& forall|x: u32|
                    x != id ==> (#[trigger] final(store).contains_id(x) <==> old(
                        store,
                    ).contains_id(x))
                &&& forall|x: u32|
                    x != id && #[trigger] final(store).contains_id(x) ==> final(store).record(x)
                        == old(store).record(x)
            },
            Result::Err(rej) => {
                &&& accept_error(*old(store), caller@, payment, id) == Some(rej.error)
                &&& rej.refund == payment
                &&& *final(store) == *old(store)
            },
        },
{
    let authorized: bool;
    let asset_matches: bool;
    match store.get(id) {
        None => {
            return Err(Rejected { error: EscrowError::NotFound, refund: payment });
        },
        Some(rec) => {
            authorized = match &rec.wanted_counterparty {
                Counterparty::Any => true,
                Counterparty::Specific(w) => w.matches(caller),
            };
            asset_matches = payment.token.matches(&rec.wanted_identifier) && payment.nonce
                == rec.wanted_nonce;
        },
    }
    if !authorized {
        return Err(
            Rejected { error: EscrowError::Unauthorized(AuthRole::Counterparty), refund: payment },
        );
    }
    if !asset_matches {
        return Err(Rejected { error: EscrowError::AssetMismatch, refund: payment });
    }
    match store.remove(id) {
        Some(rec) => Ok(
            Settlement {
                asset_to_caller: rec.escrowed,
                payment_to_creator: payment,
                creator: rec.creator,
            },
        ),
        None => unreached(),
    }
}

/// Withdraws an offer: its escrowed asset is returned to the creator, who
/// alone may cancel, and the offer leaves the store for good. On rejection
/// the store is untouched.
pub fn cancel(store: &mut OfferStore, caller: &Address, id: u32) -> (r: Result<Asset, EscrowError>)
    requires
        old(store).wf(),
    ensures
        final(store).wf(),
        final(store).next_id == old(store).next_id,
        match r {
            Result::Ok(refund) => {
                &&& cancel_error(*old(store), caller@, id) is None
                &&& refund == old(store).record(id).escrowed
                &&& final(store).offers@ == old(store).offers@.remove(old(store).index_of(id))
                &&& !final(store).contains_id(id)
                &&& forall|x: u32|
                    x != id ==> (#[trigger] final(store).contains_id(x) <==> old(
                        store,
                    ).contains_id(x))
                &&& forall|x: u32|
                    x != id && #[trigger] final(store).contains_id(x) ==> final(store).record(x)
                        == old(store).record(x)
            },
            Result::Err(e) => {
                &&& cancel_error(*old(store), caller@, id) == Some(e)
                &&& *final(store) == *old(store)
            },
        },
{
    let authorized: bool;
    match store.get(id) {
        None => {
            return Err(EscrowError::NotFound);
        },
        Some(rec) => {
            authorized = rec.creator.matches(caller);
        },
    }
    if !authorized {
        return Err(EscrowError::Unauthorized(AuthRole::Creator));
    }
    match store.remove(id) {
        Some(rec) => Ok(rec.escrowed),
        None => unreached(),
    }
}

} // verus!
