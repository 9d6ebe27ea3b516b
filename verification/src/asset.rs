//! Value types of the escrow contract: ledger addresses, token identifiers,
//! asset descriptors and the optional designated counterparty of an offer.

use vstd::prelude::*;

verus! {

/// A ledger address. Only its identity matters to the contract, so it is
/// carried as a plain byte string (its textual encoding).
#[derive(Clone, Debug, PartialEq, Eq)]
pub struct Address {
    pub bytes: Vec<u8>,
}

impl View for Address {
    type V = Seq<u8>;

    open spec fn view(&self) -> Seq<u8> {
        self.bytes@
    }
}

/// A token symbol, such as a collection ticker.
#[derive(Clone, Debug, PartialEq, Eq)]
pub struct TokenId {
    pub bytes: Vec<u8>,
}

impl View for TokenId {
    type V = Seq<u8>;

    open spec fn view(&self) -> Seq<u8> {
        self.bytes@
    }
}

/// One asset unit: a token identifier, the instance nonce (0 marks a fungible
/// quantity, a positive nonce a non-fungible or semi-fungible instance), and
/// the amount.
#[derive(Clone, Debug, PartialEq, Eq)]
pub struct Asset {
    pub token: TokenId,
    pub nonce: u64,
    pub amount: u128,
}

/// Who may accept an offer: anyone, or one specific address.
#[derive(Clone, Debug, PartialEq, Eq)]
pub enum Counterparty {
    Any,
    Specific(Address),
}

/// Compares two byte strings, with equality of the views as its meaning.
pub fn bytes_eq(a: &Vec<u8>, b: &Vec<u8>) -> (r: bool)
    ensures
        r == (a@ == b@),
{
    let r = *a == *b;
    proof {
        if r {
            assert(a@ =~= b@);
        }
    }
    r
}

impl Address {
    /// True exactly when the two addresses are the same identity.
    pub fn matches(&self, other: &Address) -> (r: bool)
        ensures
            r == (self@ == other@),
    {
        bytes_eq(&self.bytes, &other.bytes)
    }
}

impl TokenId {
    /// True exactly when the two symbols are equal.
    pub fn matches(&self, other: &TokenId) -> (r: bool)
        ensures
            r == (self@ == other@),
    {
        bytes_eq(&self.bytes, &other.bytes)
    }
}

} // verus!
