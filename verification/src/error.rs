//! The error taxonomy of the contract. Every error aborts the whole
//! transaction; the exact message surfaced to the caller is part of the
//! observable behaviour.

use vstd::prelude::*;

verus! {

/// The right a caller was missing.
#[derive(Clone, Copy, Debug, PartialEq, Eq, Structural)]
pub enum AuthRole {
    /// Not the designated counterparty of the offer being accepted.
    Counterparty,
    /// Not the creator of the offer being cancelled.
    Creator,
}

/// Why a call was rejected. Each value carries a fixed human-readable
/// message, returned by [`EscrowError::message`].
#[derive(Clone, Copy, Debug, PartialEq, Eq, Structural)]
pub enum EscrowError {
    /// The escrowed payment is fungible (nonce 0) or has amount 0.
    InvalidAsset,
    /// The referenced offer id is not in the store: never created, already
    /// settled, or already cancelled.
    NotFound,
    /// The caller lacks the named right.
    Unauthorized(AuthRole),
    /// The accepting payment's identifier or nonce differs from the offer's
    /// wanted fields.
    AssetMismatch,
}

impl EscrowError {
    /// The message surfaced verbatim to the caller.
    pub open spec fn spec_message(&self) -> Seq<char> {
        match self {
            EscrowError::InvalidAsset => "ESDT is not an NFT"@,
            EscrowError::NotFound => "Offer does not exist"@,
            EscrowError::Unauthorized(AuthRole::Counterparty) => "Can not accept this offer"@,
            EscrowError::Unauthorized(AuthRole::Creator) => "Only the offer creator can cancel it"@,
            EscrowError::AssetMismatch => "NFT does not match"@,
        }
    }

    /// The message surfaced verbatim to the caller.
    pub fn message(&self) -> (r: &'static str)
        ensures
            r@ == self.spec_message(),
    {
        match self {
            EscrowError::InvalidAsset => "ESDT is not an NFT",
            EscrowError::NotFound => "Offer does not exist",
            EscrowError::Unauthorized(AuthRole::Counterparty) => "Can not accept this offer",
            EscrowError::Unauthorized(AuthRole::Creator) => "Only the offer creator can cancel it",
            EscrowError::AssetMismatch => "NFT does not match",
        }
    }
}

} // verus!
