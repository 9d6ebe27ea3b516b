use nft_escrow::asset::{Address, Asset, Counterparty, TokenId};
use nft_escrow::error::{AuthRole, EscrowError};
use nft_escrow::handlers::{accept, cancel, escrow};
use nft_escrow::query::{created_offers, offer, wanted_offers};
use nft_escrow::store::OfferStore;

const CREATOR: &str = "erd1qyu5wthldzr8wx5c9ucg8kjagg0jfs53s8nr3zpz3hypefsdd8ssycr6th";
const SECOND_USER: &str = "erd1spyavw0956vq68xj8y4tenjpq2wd5a9p2c6j8gsz7ztyrnpxrruqzu66jx";

fn addr(s: &str) -> Address {
    Address { bytes: s.as_bytes().to_vec() }
}

fn token(s: &str) -> TokenId {
    TokenId { bytes: s.as_bytes().to_vec() }
}

fn asset(t: &str, nonce: u64, amount: u128) -> Asset {
    Asset { token: token(t), nonce, amount }
}

#[test]
fn test_escrow_nonce_zero() {
    let mut store = OfferStore::new();
    let payment = asset("BSK-476470", 0, 5);
    let r = escrow(
        &mut store,
        addr(CREATOR),
        payment.clone(),
        token("nft-nicu"),
        10,
        Counterparty::Specific(addr(CREATOR)),
    );
    let rej = r.err().expect("fungible payment must be rejected");
    assert_eq!(rej.error, EscrowError::InvalidAsset);
    assert_eq!(rej.error.message(), "ESDT is not an NFT");
    assert_eq!(rej.refund, payment);
    assert!(created_offers(&store, &addr(CREATOR)).is_empty());
}

#[test]
fn test_escrow_value_zero() {
    let mut store = OfferStore::new();
    let payment = asset("META-2ab8be", 1, 0);
    let r = escrow(
        &mut store,
        addr(CREATOR),
        payment.clone(),
        token("nft-nicu"),
        10,
        Counterparty::Specific(addr(CREATOR)),
    );
    let rej = r.err().expect("zero-amount payment must be rejected");
    assert_eq!(rej.error, EscrowError::InvalidAsset);
    assert_eq!(rej.error.message(), "ESDT is not an NFT");
    assert_eq!(rej.refund, payment);
    assert!(created_offers(&store, &addr(CREATOR)).is_empty());
}

#[test]
fn test_accept_fail_offer_does_not_exist() {
    let mut store = OfferStore::new();
    let payment = asset("INTERNS-c9325f", 1, 2);
    let r = accept(&mut store, &addr(CREATOR), payment.clone(), 9999);
    let rej = r.err().expect("an unknown offer id must be rejected");
    assert_eq!(rej.error, EscrowError::NotFound);
    assert_eq!(rej.error.message(), "Offer does not exist");
    assert_eq!(rej.refund, payment);
}

#[test]
fn test_unauthorized_acceptance() {
    let mut store = OfferStore::new();
    let offer_id = escrow(
        &mut store,
        addr(CREATOR),
        asset("INTERNS-c9325f", 1, 1),
        token("MICE-9e007a"),
        106,
        Counterparty::Specific(addr(SECOND_USER)),
    )
    .ok()
    .expect("escrow of an NFT must succeed");
    // The creator is not the designated counterparty.
    let r = accept(&mut store, &addr(CREATOR), asset("INTERNS-c9325f", 1, 1), offer_id);
    let rej = r.err().expect("only the designated counterparty may accept");
    assert_eq!(rej.error, EscrowError::Unauthorized(AuthRole::Counterparty));
    assert_eq!(rej.error.message(), "Can not accept this offer");
    // The offer is still open.
    assert!(offer(&store, offer_id).is_ok());
}

#[test]
fn test_nft_does_not_match() {
    let mut store = OfferStore::new();
    let offer_id = escrow(
        &mut store,
        addr(CREATOR),
        asset("INTERNS-c9325f", 1, 1),
        token("INTERNS-c9325f"),
        1,
        Counterparty::Specific(addr(SECOND_USER)),
    )
    .ok()
    .expect("escrow of an NFT must succeed");
    // The right counterparty pays with the wrong instance nonce.
    let r = accept(&mut store, &addr(SECOND_USER), asset("INTERNS-c9325f", 2, 1), offer_id);
    let rej = r.err().expect("a payment with the wrong nonce must be rejected");
    assert_eq!(rej.error, EscrowError::AssetMismatch);
    assert_eq!(rej.error.message(), "NFT does not match");
    assert!(offer(&store, offer_id).is_ok());
}

#[test]
fn test_accept_success() {
    let mut store = OfferStore::new();
    let escrowed = asset("INTERNS-c9325f", 1, 1);
    let offer_id = escrow(
        &mut store,
        addr(CREATOR),
        escrowed.clone(),
        token("MICE-9e007a"),
        2,
        Counterparty::Specific(addr(SECOND_USER)),
    )
    .ok()
    .expect("escrow of an NFT must succeed");
    let payment = asset("MICE-9e007a", 2, 1);
    let r = accept(&mut store, &addr(SECOND_USER), payment.clone(), offer_id);
    let settlement = r.ok().expect("a matching payment from the counterparty settles");
    assert_eq!(settlement.asset_to_caller, escrowed);
    assert_eq!(settlement.payment_to_creator, payment);
    assert_eq!(settlement.creator, addr(CREATOR));
    // The offer is gone for good.
    let again = offer(&store, offer_id);
    assert_eq!(again.err(), Some(EscrowError::NotFound));
}

#[test]
fn test_all_smooth() {
    let mut store = OfferStore::new();
    let escrowed = asset("META-2ab8be", 1, 1);
    let offer_id = escrow(
        &mut store,
        addr(CREATOR),
        escrowed.clone(),
        token("MICE-9e007a"),
        106,
        Counterparty::Specific(addr(SECOND_USER)),
    )
    .ok()
    .expect("escrow of an NFT must succeed");
    let refund = cancel(&mut store, &addr(CREATOR), offer_id)
        .ok()
        .expect("the creator may cancel");
    assert_eq!(refund, escrowed);
    assert!(created_offers(&store, &addr(CREATOR)).is_empty());
    assert!(wanted_offers(&store, &addr(SECOND_USER)).is_empty());
}
