//! Laws of the escrow state machine, stated once for all inputs and proved
//! against the contracts of the store, the handlers and the queries.

use vstd::prelude::*;

use crate::asset::Asset;
use crate::error::EscrowError;
use crate::handlers::{accept_error, cancel_error};
use crate::offer::OfferRecord;
use crate::query::{by_counterparty, by_creator, created_ids, ids_where, wanted_ids};
use crate::store::OfferStore;

verus! {

/// Id freshness: in a well-formed store the id an escrow would allocate next
/// is strictly greater than the id of every open offer and is itself absent.
/// Since a successful escrow returns exactly `next_id` and moves `next_id`
/// one past it, while settling and cancelling leave `next_id` untouched,
/// every id a store ever hands out is unique and exceeds all earlier ones.
pub proof fn lemma_next_id_fresh(s: OfferStore)
    requires
        s.wf(),
    ensures
        !s.contains_id(s.next_id),
        forall|i: int| 0 <= i < s.offers@.len() ==> (#[trigger] s.offers@[i]).id < s.next_id,
{
}

/// Exactly-once rejection: an id that is not in the store — never created,
/// already settled, or already cancelled — is rejected as `NotFound` by both
/// acceptance and cancellation, whoever calls and whatever they pay.
pub proof fn lemma_absent_offer_rejected(s: OfferStore, caller: Seq<u8>, payment: Asset, id: u32)
    requires
        !s.contains_id(id),
    ensures
        accept_error(s, caller, payment, id) == Some(EscrowError::NotFound),
        cancel_error(s, caller, id) == Some(EscrowError::NotFound),
{
}

/// Exactly-once, one step at a time: an id that has been retired — it lies
/// below the allocation counter and no open offer carries it — stays retired
/// across any one handler call. The premises are what every handler
/// guarantees, whether it succeeds or rejects: the counter never shrinks,
/// and the only id a call can add is the counter's own value, which lies
/// above every retired id. By induction over a run of calls, a settled or
/// cancelled offer never comes back.
pub proof fn lemma_retired_id_stays_retired(pre: OfferStore, post: OfferStore, id: u32)
    requires
        id < pre.next_id,
        !pre.contains_id(id),
        pre.next_id <= post.next_id,
        forall|x: u32| #[trigger] post.contains_id(x) ==> pre.contains_id(x) || x >= pre.next_id,
    ensures
        id < post.next_id,
        !post.contains_id(id),
{
}

/// A listing holds an id exactly when some record carries that id and
/// satisfies the listing's predicate.
pub proof fn lemma_ids_where_exact(
    entries: Seq<OfferRecord>,
    pred: spec_fn(OfferRecord) -> bool,
    x: u32,
)
    ensures
        ids_where(entries, pred).contains(x) <==> exists|i: int|
            0 <= i < entries.len() && (#[trigger] entries[i]).id == x && pred(entries[i]),
    decreases entries.len(),
{
    if entries.len() == 0 {
    } else {
        let rest = entries.drop_last();
        let last = entries.last();
        lemma_ids_where_exact(rest, pred, x);
        let restids = ids_where(rest, pred);
        let ids = ids_where(entries, pred);
        assert(forall|i: int| 0 <= i < rest.len() ==> rest[i] == entries[i]);
        if pred(last) {
            assert(ids == restids.push(last.id));
            if restids.contains(x) {
                let k = choose|k: int| 0 <= k < restids.len() && restids[k] == x;
                assert(ids[k] == x);
                assert(ids.contains(x));
            }
            if x == last.id {
                assert(ids[restids.len() as int] == x);
                assert(ids.contains(x));
            }
            if ids.contains(x) {
                let k = choose|k: int| 0 <= k < ids.len() && ids[k] == x;
                if k < restids.len() {
                    assert(restids[k] == x);
                    assert(restids.contains(x));
                } else {
                    assert(x == last.id);
                }
            }
        } else {
            assert(ids == restids);
        }
        if exists|i: int| 0 <= i < rest.len() && (#[trigger] rest[i]).id == x && pred(rest[i]) {
            let i = choose|i: int| 0 <= i < rest.len() && (#[trigger] rest[i]).id == x && pred(
                rest[i],
            );
            assert(entries[i].id == x && pred(entries[i]));
        }
        if exists|i: int| 0 <= i < entries.len() && (#[trigger] entries[i]).id == x && pred(
            entries[i],
        ) {
            let i = choose|i: int| 0 <= i < entries.len() && (#[trigger] entries[i]).id == x
                && pred(entries[i]);
            if i < entries.len() - 1 {
                assert(rest[i].id == x && pred(rest[i]));
            } else {
                assert(last.id == x && pred(last));
            }
        }
    }
}

/// Index consistency for the creator listing: in a well-formed store an id
/// is listed for `a` exactly when the offer is open and `a` created it.
pub proof fn lemma_created_index_consistent(s: OfferStore, a: Seq<u8>, id: u32)
    requires
        s.wf(),
    ensures
        created_ids(s.offers@, a).contains(id) <==> (s.contains_id(id) && s.record(id).creator@
            == a),
{
    let pred = by_creator(a);
    lemma_ids_where_exact(s.offers@, pred, id);
    if created_ids(s.offers@, a).contains(id) {
        let i = choose|i: int|
            0 <= i < s.offers@.len() && (#[trigger] s.offers@[i]).id == id && pred(s.offers@[i]);
        s.lemma_index_of(id, i);
    }
    if s.contains_id(id) && s.record(id).creator@ == a {
        let i = s.index_of(id);
        assert(s.offers@[i].id == id && pred(s.offers@[i]));
    }
}

/// Index consistency for the counterparty listing: in a well-formed store an
/// id is listed for `a` exactly when the offer is open and names `a` as its
/// designated counterparty.
pub proof fn lemma_wanted_index_consistent(s: OfferStore, a: Seq<u8>, id: u32)
    requires
        s.wf(),
    ensures
        wanted_ids(s.offers@, a).contains(id) <==> (s.contains_id(id) && s.record(id).wanted_by(
            a,
        )),
{
    let pred = by_counterparty(a);
    lemma_ids_where_exact(s.offers@, pred, id);
    if wanted_ids(s.offers@, a).contains(id) {
        let i = choose|i: int|
            0 <= i < s.offers@.len() && (#[trigger] s.offers@[i]).id == id && pred(s.offers@[i]);
        s.lemma_index_of(id, i);
    }
    if s.contains_id(id) && s.record(id).wanted_by(a) {
        let i = s.index_of(id);
        assert(s.offers@[i].id == id && pred(s.offers@[i]));
    }
}

/// Exactly-once visibility: an id that is not in the store appears in no
/// creator listing and in no counterparty listing, whatever the address.
pub proof fn lemma_terminated_offer_unlisted(s: OfferStore, a: Seq<u8>, id: u32)
    requires
        !s.contains_id(id),
    ensures
        !created_ids(s.offers@, a).contains(id),
        !wanted_ids(s.offers@, a).contains(id),
{
    lemma_ids_where_exact(s.offers@, by_creator(a), id);
    lemma_ids_where_exact(s.offers@, by_counterparty(a), id);
}

/// Every listing of a well-formed store is strictly increasing, which is
/// creation order: earlier offers carry smaller ids.
pub proof fn lemma_ids_where_sorted(entries: Seq<OfferRecord>, pred: spec_fn(OfferRecord) -> bool)
    requires
        forall|i: int, j: int|
            0 <= i < j < entries.len() ==> (#[trigger] entries[i]).id < (#[trigger] entries[j]).id,
    ensures
        forall|i: int, j: int|
            0 <= i < j < ids_where(entries, pred).len() ==> ids_where(entries, pred)[i] < ids_where(
                entries,
                pred,
            )[j],
    decreases entries.len(),
{
    if entries.len() == 0 {
    } else {
        let rest = entries.drop_last();
        let last = entries.last();
        assert(forall|i: int| 0 <= i < rest.len() ==> rest[i] == entries[i]);
        lemma_ids_where_sorted(rest, pred);
        let restids = ids_where(rest, pred);
        let ids = ids_where(entries, pred);
        if pred(last) {
            assert(ids == restids.push(last.id));
            assert forall|k: int| 0 <= k < restids.len() implies restids[k] < last.id by {
                assert(restids.contains(restids[k]));
                lemma_ids_where_exact(rest, pred, restids[k]);
                let i = choose|i: int|
                    0 <= i < rest.len() && (#[trigger] rest[i]).id == restids[k] && pred(rest[i]);
                assert(entries[i].id < last.id);
            }
            assert forall|i: int, j: int| 0 <= i < j < ids.len() implies ids[i] < ids[j] by {
                if j < restids.len() {
                    assert(restids[i] < restids[j]);
                } else {
                    assert(ids[j] == last.id);
                    assert(ids[i] == restids[i]);
                }
            }
        } else {
            assert(ids == restids);
        }
    }
}

/// The collateral held for one token instance: the sum of the escrowed
/// amounts over all open offers whose escrowed asset carries this token
/// identifier and nonce. The contract's custody must always equal it.
pub open spec fn custody(entries: Seq<OfferRecord>, token: Seq<u8>, nonce: u64) -> int
    decreases entries.len(),
{
    if entries.len() == 0 {
        0
    } else {
        custody(entries.drop_last(), token, nonce) + if entries.last().escrowed.token@ == token
            && entries.last().escrowed.nonce == nonce {
            entries.last().escrowed.amount as int
        } else {
            0
        }
    }
}

/// Custody reconciliation for offer creation: appending a record — what a
/// successful escrow does to the store — raises the held collateral of the
/// escrowed token instance by exactly its amount, and no other instance's
/// collateral moves.
pub proof fn lemma_custody_after_insert(
    entries: Seq<OfferRecord>,
    rec: OfferRecord,
    token: Seq<u8>,
    nonce: u64,
)
    ensures
        custody(entries.push(rec), token, nonce) == custody(entries, token, nonce) + if rec.escrowed.token@
            == token && rec.escrowed.nonce == nonce {
            rec.escrowed.amount as int
        } else {
            0
        },
{
    assert(entries.push(rec).drop_last() =~= entries);
}

/// Custody reconciliation for settlement and cancellation: removing a record
/// — what a successful acceptance or cancellation does to the store — lowers
/// the held collateral of its escrowed token instance by exactly its amount,
/// and no other instance's collateral moves.
pub proof fn lemma_custody_after_remove(
    entries: Seq<OfferRecord>,
    i: int,
    token: Seq<u8>,
    nonce: u64,
)
    requires
        0 <= i < entries.len(),
    ensures
        custody(entries.remove(i), token, nonce) == custody(entries, token, nonce) - if entries[i].escrowed.token@
            == token && entries[i].escrowed.nonce == nonce {
            entries[i].escrowed.amount as int
        } else {
            0
        },
    decreases entries.len(),
{
    if i == entries.len() - 1 {
        assert(entries.remove(i) =~= entries.drop_last());
    } else {
        let rest = entries.drop_last();
        assert(entries.remove(i).drop_last() =~= rest.remove(i));
        assert(entries.remove(i).last() == entries.last());
        lemma_custody_after_remove(rest, i, token, nonce);
    }
}

/// The creator listing of a well-formed store is strictly increasing.
pub proof fn lemma_created_listing_sorted(s: OfferStore, a: Seq<u8>)
    requires
        s.wf(),
    ensures
        forall|i: int, j: int|
            0 <= i < j < created_ids(s.offers@, a).len() ==> created_ids(s.offers@, a)[i]
                < created_ids(s.offers@, a)[j],
{
    lemma_ids_where_sorted(s.offers@, by_creator(a));
}

/// The counterparty listing of a well-formed store is strictly increasing.
pub proof fn lemma_wanted_listing_sorted(s: OfferStore, a: Seq<u8>)
    requires
        s.wf(),
    ensures
        forall|i: int, j: int|
            0 <= i < j < wanted_ids(s.offers@, a).len() ==> wanted_ids(s.offers@, a)[i]
                < wanted_ids(s.offers@, a)[j],
{
    lemma_ids_where_sorted(s.offers@, by_counterparty(a));
}

} // verus!
