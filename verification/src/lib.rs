//! A verified escrow state machine for non-fungible tokens.
//!
//! An offer locks a payment asset under contract custody together with the
//! terms under which it will be released: the token identifier and nonce the
//! creator demands in return, and optionally the one address allowed to
//! accept. Offers live in a [`store::OfferStore`]; the functions in
//! [`handlers`] create, settle and withdraw them atomically; the read-only
//! projections in [`query`] list them by id, by creator and by designated
//! counterparty; and [`laws`] states and proves the properties that tie the
//! pieces together, such as id freshness, index consistency and custody
//! reconciliation.

pub mod asset;
pub mod error;
pub mod handlers;
pub mod laws;
pub mod offer;
pub mod query;
pub mod store;
