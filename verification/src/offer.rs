//! The offer record: one open escrow, immutable once created.

use vstd::prelude::*;

use crate::asset::{Address, Asset, Counterparty, TokenId};

verus! {

/// One open escrow: the asset held in custody, the terms demanded for its
/// release, and the addresses with rights over it.
#[derive(Clone, Debug, PartialEq, Eq)]
pub struct OfferRecord {
    /// Unique identifier, allocated by the store, never reused.
    pub id: u32,
    /// The address that created the offer and holds withdrawal rights.
    pub creator: Address,
    /// The asset currently held in contract custody.
    pub escrowed: Asset,
    /// Token symbol the creator demands in return.
    pub wanted_identifier: TokenId,
    /// Required instance nonce of the demanded asset.
    pub wanted_nonce: u64,
    /// Who may accept: anyone, or one designated address.
    pub wanted_counterparty: Counterparty,
}

impl OfferRecord {
    /// Whether a caller with this identity is allowed to accept the offer.
    pub open spec fn accepts_caller(&self, caller: Seq<u8>) -> bool {
        match self.wanted_counterparty {
            Counterparty::Any => true,
            Counterparty::Specific(a) => a@ == caller,
        }
    }

    /// Whether an incoming payment carries the demanded asset: its identifier
    /// and nonce must equal the wanted ones. The amount is not constrained,
    /// since identifier and nonce already pin one instance.
    pub open spec fn wanted_matches(&self, payment: Asset) -> bool {
        payment.token@ == self.wanted_identifier@ && payment.nonce == self.wanted_nonce
    }

    /// Whether this record names `a` as its designated counterparty.
    pub open spec fn wanted_by(&self, a: Seq<u8>) -> bool {
        match self.wanted_counterparty {
            Counterparty::Any => false,
            Counterparty::Specific(w) => w@ == a,
        }
    }
}

} // verus!
