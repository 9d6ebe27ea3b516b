//! The offer store: owner of all offer records, keyed by a strictly
//! increasing, never reused identifier.

use vstd::prelude::*;

use crate::offer::OfferRecord;

verus! {

/// Holds every open offer, in creation order. Identifiers are allocated from
/// `next_id`, which starts at 1 and only ever grows, so an id is never
/// reused, not even after its offer is removed.
pub struct OfferStore {
    /// Open offers, in creation order, so with strictly increasing ids.
    pub offers: Vec<OfferRecord>,
    /// The id the next inserted offer will get.
    pub next_id: u32,
}

impl OfferStore {
    /// How many offers are open.
    pub open spec fn len(&self) -> nat {
        self.offers@.len()
    }

    /// Whether an offer with this id is open.
    pub open spec fn contains_id(&self, id: u32) -> bool {
        exists|i: int| 0 <= i < self.offers@.len() && (#[trigger] self.offers@[i]).id == id
    }

    /// The position of the offer with this id; meaningful only under
    /// `contains_id`.
    pub open spec fn index_of(&self, id: u32) -> int {
        choose|i: int| 0 <= i < self.offers@.len() && (#[trigger] self.offers@[i]).id == id
    }

    /// The record of the offer with this id; meaningful only under
    /// `contains_id`.
    pub open spec fn record(&self, id: u32) -> OfferRecord {
        self.offers@[self.index_of(id)]
    }

    /// Well-formedness: ids start at 1, grow strictly along the store, and
    /// all lie below `next_id`. Constructors establish it and every handler
    /// preserves it.
    pub open spec fn wf(&self) -> bool {
        &&& 1 <= self.next_id
        &&& forall|i: int, j: int|
            0 <= i < j < self.offers@.len() ==> (#[trigger] self.offers@[i]).id < (
            #[trigger] self.offers@[j]).id
        &&& forall|i: int|
            0 <= i < self.offers@.len() ==> 1 <= (#[trigger] self.offers@[i]).id < self.next_id
    }

    /// Two positions holding the same id are the same position.
    pub proof fn lemma_index_unique(&self, i: int, j: int)
        requires
            self.wf(),
            0 <= i < self.offers@.len(),
            0 <= j < self.offers@.len(),
            self.offers@[i].id == self.offers@[j].id,
        ensures
            i == j,
    {
        if i < j {
            assert(self.offers@[i].id < self.offers@[j].id);
        } else if j < i {
            assert(self.offers@[j].id < self.offers@[i].id);
        }
    }

    /// In a well-formed store, `index_of` is the one position of a contained
    /// id, and `record` the record there.
    pub proof fn lemma_index_of(&self, id: u32, i: int)
        requires
            self.wf(),
            0 <= i < self.offers@.len(),
            self.offers@[i].id == id,
        ensures
            self.contains_id(id),
            self.index_of(id) == i,
            self.record(id) == self.offers@[i],
    {
        self.lemma_index_unique(i, self.index_of(id));
    }

    /// A store with no offers; ids will be allocated from 1.
    pub fn new() -> (s: Self)
        ensures
            s.wf(),
            s.offers@.len() == 0,
            s.next_id == 1,
    {
        OfferStore { offers: Vec::new(), next_id: 1 }
    }

    /// The position of the offer with this id, or `None` if no offer has it.
    fn find_index(&self, id: u32) -> (r: Option<usize>)
        ensures
            match r {
                Some(i) => i < self.offers@.len() && self.offers@[i as int].id == id,
                None => !self.contains_id(id),
            },
    {
        let mut i: usize = 0;
        while i < self.offers.len()
            invariant
                i <= self.offers@.len(),
                forall|j: int| 0 <= j < i ==> (#[trigger] self.offers@[j]).id != id,
            decreases self.offers@.len() - i,
        {
            if self.offers[i].id == id {
                return Some(i);
            }
            i = i + 1;
        }
        None
    }

    /// Looks an offer up by id.
    pub fn get(&self, id: u32) -> (r: Option<&OfferRecord>)
        requires
            self.wf(),
        ensures
            match r {
                Some(rec) => self.contains_id(id) && *rec == self.record(id),
                None => !self.contains_id(id),
            },
    {
        match self.find_index(id) {
            Some(i) => {
                proof {
                    self.lemma_index_of(id, i as int);
                }
                Some(&self.offers[i])
            },
            None => None,
        }
    }

    /// Inserts a record under a freshly allocated id (the record's own `id`
    /// field is overwritten) and returns that id. The new id is strictly
    /// greater than every id in the store, and `next_id` moves past it.
    pub fn insert(&mut self, record: OfferRecord) -> (id: u32)
        requires
            old(self).wf(),
            old(self).next_id < u32::MAX,
        ensures
            final(self).wf(),
            id == old(self).next_id,
            final(self).next_id == id + 1,
            final(self).offers@ == old(self).offers@.push(
                (OfferRecord { id, ..record }),
            ),
            !old(self).contains_id(id),
            final(self).contains_id(id),
            final(self).record(id) == (OfferRecord { id, ..record }),
            forall|x: u32|
                #[trigger] final(self).contains_id(x) <==> old(self).contains_id(x) || x == id,
            forall|x: u32|
                x != id && #[trigger] final(self).contains_id(x) ==> final(self).record(x) == old(
                    self,
                ).record(x),
    {
        let id = self.next_id;
        let mut record = record;
        record.id = id;
        self.offers.push(record);
        self.next_id = id + 1;
        proof {
            let s = old(self).offers@;
            let t = self.offers@;
            let n = t.len() - 1;
            assert(t[n].id == id);
            self.lemma_index_of(id, n);
            assert forall|x: u32| #[trigger] self.contains_id(x) implies old(self).contains_id(x)
                || x == id by {
                let k = choose|k: int| 0 <= k < t.len() && (#[trigger] t[k]).id == x;
                if k < s.len() {
                    assert(s[k].id == x);
                }
            }
            assert forall|x: u32| old(self).contains_id(x) || x == id implies self.contains_id(
                x,
            ) by {
                if old(self).contains_id(x) {
                    let k = choose|k: int| 0 <= k < s.len() && (#[trigger] s[k]).id == x;
                    assert(t[k].id == x);
                }
            }
            assert forall|x: u32| x != id && #[trigger] self.contains_id(x) implies self.record(x)
                == old(self).record(x) by {
                let k = choose|k: int| 0 <= k < t.len() && (#[trigger] t[k]).id == x;
                assert(k < s.len());
                assert(s[k].id == x);
                old(self).lemma_index_of(x, k);
                self.lemma_index_of(x, k);
            }
        }
        id
    }

    /// Removes the offer with this id and returns its record, or returns
    /// `None` and leaves the store unchanged if no offer has the id. Every
    /// other offer keeps its record, and `next_id` is untouched.
    pub fn remove(&mut self, id: u32) -> (r: Option<OfferRecord>)
        requires
            old(self).wf(),
        ensures
            final(self).wf(),
            final(self).next_id == old(self).next_id,
            match r {
                Some(rec) => {
                    &&& old(self).contains_id(id)
                    &&& rec == old(self).record(id)
                    &&& rec.id == id
                    &&& final(self).offers@ == old(self).offers@.remove(old(self).index_of(id))
                    &&& !final(self).contains_id(id)
                },
                None => !old(self).contains_id(id) && final(self).offers@ == old(self).offers@,
            },
            forall|x: u32|
                x != id ==> (#[trigger] final(self).contains_id(x) <==> old(self).contains_id(x)),
            forall|x: u32|
                x != id && #[trigger] final(self).contains_id(x) ==> final(self).record(x) == old(
                    self,
                ).record(x),
    {
        match self.find_index(id) {
            Some(i) => {
                proof {
                    self.lemma_index_of(id, i as int);
                }
                let ghost pre = *self;
                let rec = self.offers.remove(i);
                proof {
                    pre.lemma_remove_keeps_others(*self, i as int, id);
                }
                Some(rec)
            },
            None => None,
        }
    }

    /// After removing the offer at position `i`, the store stays well
    /// formed, the removed id is gone, and every other id keeps its record.
    proof fn lemma_remove_keeps_others(self, post: Self, i: int, id: u32)
        requires
            self.wf(),
            0 <= i < self.offers@.len(),
            self.offers@[i].id == id,
            post.offers@ == self.offers@.remove(i),
            post.next_id == self.next_id,
        ensures
            post.wf(),
            !post.contains_id(id),
            forall|x: u32|
                x != id ==> (#[trigger] post.contains_id(x) <==> self.contains_id(x)),
            forall|x: u32|
                x != id && #[trigger] post.contains_id(x) ==> post.record(x) == self.record(x),
    {
        let s = self.offers@;
        let t = post.offers@;
        assert forall|k: int| 0 <= k < t.len() implies t[k] == s[if k < i {
            k
        } else {
            k + 1
        }] by {}
        assert(post.wf());
        assert forall|k: int| 0 <= k < t.len() implies t[k].id != id by {
            let k0: int = if k < i { k } else { k + 1 };
            if t[k].id == id {
                self.lemma_index_unique(k0, i);
            }
        }
        assert forall|x: u32| x != id && self.contains_id(x) implies post.contains_id(x) by {
            let k = choose|k: int| 0 <= k < s.len() && (#[trigger] s[k]).id == x;
            if k < i {
                assert(t[k].id == x);
            } else {
                assert(k != i);
                assert(t[k - 1].id == x);
            }
        }
        assert forall|x: u32| x != id && post.contains_id(x) implies self.contains_id(x)
            && post.record(x) == self.record(x) by {
            let k = choose|k: int| 0 <= k < t.len() && (#[trigger] t[k]).id == x;
            let k0: int = if k < i { k } else { k + 1 };
            assert(s[k0].id == x);
            self.lemma_index_of(x, k0);
            post.lemma_index_of(x, k);
        }
    }
}

} // verus!
