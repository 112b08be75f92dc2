//! End-to-end scenarios for the escrow state machine: creation, claims,
//! disputes, arbiter decisions, and every named rejection.

use fedimint_escrow::client::EscrowClientModule;
use fedimint_escrow::common::{
    Amount, EscrowError, EscrowInput, EscrowInputError, EscrowOutputError, EscrowStates, PublicKey,
    SecretKey,
};
use fedimint_escrow::config::{
    EscrowClientConfig, EscrowConfig, EscrowConfigConsensus, EscrowConfigLocal,
    EscrowConfigPrivate,
};
use fedimint_escrow::crypto::hash256;
use fedimint_escrow::db::ContractStore;
use fedimint_escrow::server::Escrow;

fn sk(byte: u8) -> SecretKey {
    SecretKey { bytes: vec![byte; 32] }
}

fn pk(byte: u8) -> PublicKey {
    let kp = secp256k1::Keypair::from_seckey_slice(&[byte; 32]).unwrap();
    PublicKey {
        bytes: kp.public_key().serialize().to_vec(),
    }
}

fn client(deposit_fee_msats: u64, key_byte: u8) -> EscrowClientModule {
    EscrowClientModule::new(
        EscrowClientConfig {
            deposit_fee: Amount {
                msats: deposit_fee_msats,
            },
            max_arbiter_fee_bps: 1000,
        },
        sk(key_byte),
    )
}

fn guardian(deposit_fee_msats: u64) -> Escrow {
    Escrow::new(EscrowConfig {
        local: EscrowConfigLocal,
        private: EscrowConfigPrivate,
        consensus: EscrowConfigConsensus {
            deposit_fee: Amount {
                msats: deposit_fee_msats,
            },
            max_arbiter_fee_bps: 1000,
        },
    })
}

const BUYER: u8 = 1;
const SELLER: u8 = 2;
const ARBITER: u8 = 3;
const OUTSIDER: u8 = 4;

/// Creates an escrow and returns the guardian, its store and the buyer's
/// declared transaction amounts.
fn setup(
    amount_msats: u64,
    max_arbiter_fee_bps: u16,
    deposit_fee_msats: u64,
    escrow_id: &str,
    secret_code: &str,
) -> (Escrow, ContractStore) {
    let buyer = client(deposit_fee_msats, BUYER);
    let output = buyer
        .create_escrow(
            Amount {
                msats: amount_msats,
            },
            &pk(SELLER),
            &pk(ARBITER),
            escrow_id.to_owned(),
            hash256(secret_code.to_owned()),
            max_arbiter_fee_bps,
        )
        .expect("creation preconditions hold");
    let escrow = guardian(deposit_fee_msats);
    let mut store = ContractStore::new();
    let meta = escrow
        .process_output(&mut store, &output, 7)
        .expect("fresh id and valid fee cap");
    assert_eq!(meta.amount.msats, amount_msats);
    assert_eq!(meta.fee.msats, deposit_fee_msats);
    (escrow, store)
}

#[test]
fn happy_path_test() {
    // The buyer starts with 100_000_000 msats and locks 50_000 at a 1% cap,
    // with no deposit fee.
    let cost: u64 = 50_000;
    let (escrow, mut store) = setup(cost, 100, 0, "escrow-1", "open sesame");
    let mut buyer_balance: u64 = 100_000_000;
    buyer_balance -= cost;

    let id = "escrow-1".to_owned();
    let info = escrow.handle_get_module_info(&store, &id).unwrap();
    assert_eq!(info.state, EscrowStates::Open);
    assert_eq!(info.amount.msats, cost);

    // The seller claims with the correct secret code.
    let seller = client(0, SELLER);
    let claim = seller
        .claim_escrow(id.clone(), info.amount, "open sesame".to_owned(), &info.state)
        .unwrap();
    let meta = escrow.process_input(&mut store, &claim).unwrap();
    assert_eq!(meta.amount.amount.msats, cost);
    assert_eq!(meta.amount.fee.msats, 0);
    assert_eq!(meta.pub_key.bytes, pk(SELLER).bytes);
    let seller_balance: u64 = meta.amount.amount.msats;

    let info = escrow.handle_get_module_info(&store, &id).unwrap();
    assert_eq!(info.state, EscrowStates::ResolvedWithoutDispute);

    // Neither the buyer nor the arbiter can claim the resolved escrow.
    let buyer = client(0, BUYER);
    assert!(buyer
        .claim_escrow(id.clone(), info.amount, "open sesame".to_owned(), &info.state)
        .is_err());
    let arbiter = client(0, ARBITER);
    assert!(arbiter
        .claim_escrow(id.clone(), info.amount, "open sesame".to_owned(), &info.state)
        .is_err());

    assert_eq!(buyer_balance, 99_950_000);
    assert_eq!(seller_balance, 50_000);
}

#[test]
fn unhappy_path_test() {
    // Creation alone: the contract opens with the full cost locked.
    let cost: u64 = 100_000;
    let (escrow, store) = setup(cost, 200, 0, "escrow-2", "some secret");
    let info = escrow
        .handle_get_module_info(&store, &"escrow-2".to_owned())
        .unwrap();
    assert_eq!(info.state, EscrowStates::Open);
    assert_eq!(info.amount.msats, cost);
}

#[test]
fn scenario_happy_path_with_deposit_fee() {
    // 1000 units locked at a 100 bps cap with a deposit fee of 25: the
    // buyer is debited 1025, the seller receives the full 1000.
    let deposit: u64 = 25;
    let buyer = client(deposit, BUYER);
    let output = buyer
        .create_escrow(
            Amount { msats: 1000 },
            &pk(SELLER),
            &pk(ARBITER),
            "escrow-3".to_owned(),
            hash256("code".to_owned()),
            100,
        )
        .unwrap();
    let declared = buyer.output_amount(&output);
    assert_eq!(declared.amount.msats + declared.fee.msats, 1025);

    let escrow = guardian(deposit);
    let mut store = ContractStore::new();
    let meta = escrow.process_output(&mut store, &output, 7).unwrap();
    assert_eq!(meta.amount.msats, 1000);
    assert_eq!(meta.fee.msats, deposit);

    let id = "escrow-3".to_owned();
    let info = escrow.handle_get_module_info(&store, &id).unwrap();
    let seller = client(deposit, SELLER);
    let claim = seller
        .claim_escrow(id, info.amount, "code".to_owned(), &info.state)
        .unwrap();
    let meta = escrow.process_input(&mut store, &claim).unwrap();
    assert_eq!(meta.amount.amount.msats, 1000);
}

#[test]
fn scenario_dispute_buyer_wins() {
    // After Open, the buyer disputes; the arbiter decides for the buyer at
    // 50 bps (5 units of 1000); the buyer then claims the remaining 995.
    let (escrow, mut store) = setup(1000, 100, 0, "escrow-4", "code");
    let id = "escrow-4".to_owned();

    let buyer = client(0, BUYER);
    let dispute = buyer.initiate_dispute(id.clone()).unwrap();
    let meta = escrow.process_input(&mut store, &dispute).unwrap();
    assert_eq!(meta.amount.amount.msats, 0);
    let info = escrow.handle_get_module_info(&store, &id).unwrap();
    assert_eq!(info.state, EscrowStates::DisputedByBuyer);

    let arbiter = client(0, ARBITER);
    let decision = arbiter
        .arbiter_decision(id.clone(), "buyer".to_owned(), 50, info.amount)
        .unwrap();
    let meta = escrow.process_input(&mut store, &decision).unwrap();
    assert_eq!(meta.amount.amount.msats, 5);
    assert_eq!(meta.pub_key.bytes, pk(ARBITER).bytes);
    let info = escrow.handle_get_module_info(&store, &id).unwrap();
    assert_eq!(info.state, EscrowStates::WaitingforBuyerToClaim);
    assert_eq!(info.amount.msats, 995);

    let claim = buyer.buyer_claim(id.clone(), info.amount, &info.state).unwrap();
    let meta = escrow.process_input(&mut store, &claim).unwrap();
    assert_eq!(meta.amount.amount.msats, 995);
    assert_eq!(meta.pub_key.bytes, pk(BUYER).bytes);
    let info = escrow.handle_get_module_info(&store, &id).unwrap();
    assert_eq!(info.state, EscrowStates::ResolvedWithDispute);

    // Conservation over the whole run: remaining + fees == locked.
    assert_eq!(info.amount.msats + 5, 1000);
}

#[test]
fn scenario_dispute_seller_wins() {
    let (escrow, mut store) = setup(1000, 1000, 0, "escrow-5", "code");
    let id = "escrow-5".to_owned();

    let seller = client(0, SELLER);
    let dispute = seller.initiate_dispute(id.clone()).unwrap();
    escrow.process_input(&mut store, &dispute).unwrap();
    let info = escrow.handle_get_module_info(&store, &id).unwrap();
    assert_eq!(info.state, EscrowStates::DisputedBySeller);

    let arbiter = client(0, ARBITER);
    let decision = arbiter
        .arbiter_decision(id.clone(), "seller".to_owned(), 1000, info.amount)
        .unwrap();
    let meta = escrow.process_input(&mut store, &decision).unwrap();
    assert_eq!(meta.amount.amount.msats, 100);
    let info = escrow.handle_get_module_info(&store, &id).unwrap();
    assert_eq!(info.state, EscrowStates::WaitingforSellerToClaim);

    let claim = seller.seller_claim(id.clone(), info.amount, &info.state).unwrap();
    let meta = escrow.process_input(&mut store, &claim).unwrap();
    assert_eq!(meta.amount.amount.msats, 900);
    assert_eq!(meta.pub_key.bytes, pk(SELLER).bytes);
}

#[test]
fn scenario_rejected_duplicate_claim() {
    // After a successful seller claim, resubmitting the identical claim
    // fails with InvalidStateForClaimingEscrow.
    let (escrow, mut store) = setup(1000, 100, 0, "escrow-6", "code");
    let id = "escrow-6".to_owned();
    let seller = client(0, SELLER);
    let info = escrow.handle_get_module_info(&store, &id).unwrap();
    let claim = seller
        .claim_escrow(id.clone(), info.amount, "code".to_owned(), &info.state)
        .unwrap();
    escrow.process_input(&mut store, &claim).unwrap();

    // Signing is deterministic, so the rebuilt claim is byte-identical.
    let replay = seller
        .claim_escrow(id.clone(), info.amount, "code".to_owned(), &info.state)
        .unwrap();
    let err = escrow.process_input(&mut store, &replay).unwrap_err();
    assert_eq!(err, EscrowInputError::InvalidStateForClaimingEscrow);
}

#[test]
fn scenario_unauthorized_dispute() {
    // A fourth, uninvolved key attempts to dispute: rejected, state kept.
    let (escrow, mut store) = setup(1000, 100, 0, "escrow-7", "code");
    let id = "escrow-7".to_owned();
    let outsider = client(0, OUTSIDER);
    let dispute = outsider.initiate_dispute(id.clone()).unwrap();
    let err = escrow.process_input(&mut store, &dispute).unwrap_err();
    assert_eq!(err, EscrowInputError::UnauthorizedToDispute);
    let info = escrow.handle_get_module_info(&store, &id).unwrap();
    assert_eq!(info.state, EscrowStates::Open);
    assert_eq!(info.amount.msats, 1000);
}

#[test]
fn duplicate_creation_rejected() {
    let (escrow, mut store) = setup(1000, 100, 0, "escrow-8", "code");
    let buyer = client(0, BUYER);
    let output = buyer
        .create_escrow(
            Amount { msats: 2000 },
            &pk(SELLER),
            &pk(ARBITER),
            "escrow-8".to_owned(),
            hash256("other".to_owned()),
            500,
        )
        .unwrap();
    let err = escrow.process_output(&mut store, &output, 9).unwrap_err();
    assert_eq!(err, EscrowOutputError::DuplicateEscrow);
    // The first contract is untouched.
    let info = escrow
        .handle_get_module_info(&store, &"escrow-8".to_owned())
        .unwrap();
    assert_eq!(info.amount.msats, 1000);
}

#[test]
fn creation_with_out_of_range_cap_rejected() {
    // The fee-cap range is re-verified at consensus time even though the
    // client checks it first: a hand-built output with 9 bps is rejected.
    let escrow = guardian(0);
    let mut store = ContractStore::new();
    for bps in [9u16, 1001] {
        let output = fedimint_escrow::common::EscrowOutput {
            amount: Amount { msats: 1000 },
            buyer_pubkey: pk(BUYER),
            seller_pubkey: pk(SELLER),
            arbiter_pubkey: pk(ARBITER),
            escrow_id: "escrow-b".to_owned(),
            secret_code_hash: hash256("code".to_owned()),
            max_arbiter_fee_bps: bps,
        };
        let err = escrow.process_output(&mut store, &output, 0).unwrap_err();
        assert_eq!(err, EscrowOutputError::InvalidMaxArbiterFeeBps);
    }
    // 10 and 1000 bps are accepted.
    for (n, bps) in [(0u8, 10u16), (1, 1000)] {
        let output = fedimint_escrow::common::EscrowOutput {
            amount: Amount { msats: 1000 },
            buyer_pubkey: pk(BUYER),
            seller_pubkey: pk(SELLER),
            arbiter_pubkey: pk(ARBITER),
            escrow_id: format!("escrow-b{}", n),
            secret_code_hash: hash256("code".to_owned()),
            max_arbiter_fee_bps: bps,
        };
        assert!(escrow.process_output(&mut store, &output, 0).is_ok());
    }
}

#[test]
fn error_messages_name_the_guard() {
    assert_eq!(
        EscrowInputError::InvalidSecretCode.message(),
        "Invalid secret code"
    );
    assert_eq!(
        EscrowOutputError::DuplicateEscrow.message(),
        "An escrow with this id already exists"
    );
    assert_eq!(
        EscrowError::TransactionRejected.message(),
        "Transaction was rejected"
    );
}

#[test]
fn wrong_secret_code_rejected() {
    let (escrow, mut store) = setup(1000, 100, 0, "escrow-9", "right code");
    let id = "escrow-9".to_owned();
    let seller = client(0, SELLER);
    let info = escrow.handle_get_module_info(&store, &id).unwrap();
    let claim = seller
        .claim_escrow(id.clone(), info.amount, "wrong code".to_owned(), &info.state)
        .unwrap();
    let err = escrow.process_input(&mut store, &claim).unwrap_err();
    assert_eq!(err, EscrowInputError::InvalidSecretCode);
    let info = escrow.handle_get_module_info(&store, &id).unwrap();
    assert_eq!(info.state, EscrowStates::Open);
}

#[test]
fn wrong_key_signature_rejected() {
    // A claim with the correct secret but signed by a key other than the
    // seller's fails the signature check, not the secret check.
    let (escrow, mut store) = setup(1000, 100, 0, "escrow-10", "code");
    let id = "escrow-10".to_owned();
    let outsider = client(0, OUTSIDER);
    let info = escrow.handle_get_module_info(&store, &id).unwrap();
    let claim = outsider
        .claim_escrow(id.clone(), info.amount, "code".to_owned(), &info.state)
        .unwrap();
    let err = escrow.process_input(&mut store, &claim).unwrap_err();
    assert_eq!(err, EscrowInputError::InvalidSignature);
}

#[test]
fn arbiter_decision_requires_dispute() {
    let (escrow, mut store) = setup(1000, 100, 0, "escrow-11", "code");
    let id = "escrow-11".to_owned();
    let arbiter = client(0, ARBITER);
    let info = escrow.handle_get_module_info(&store, &id).unwrap();
    let decision = arbiter
        .arbiter_decision(id.clone(), "buyer".to_owned(), 50, info.amount)
        .unwrap();
    let err = escrow.process_input(&mut store, &decision).unwrap_err();
    assert_eq!(err, EscrowInputError::EscrowNotDisputed);
}

#[test]
fn arbiter_decision_by_wrong_key_rejected() {
    let (escrow, mut store) = setup(1000, 100, 0, "escrow-12", "code");
    let id = "escrow-12".to_owned();
    let buyer = client(0, BUYER);
    let dispute = buyer.initiate_dispute(id.clone()).unwrap();
    escrow.process_input(&mut store, &dispute).unwrap();
    // The seller pretends to be the arbiter.
    let seller = client(0, SELLER);
    let info = escrow.handle_get_module_info(&store, &id).unwrap();
    let decision = seller
        .arbiter_decision(id.clone(), "seller".to_owned(), 50, info.amount)
        .unwrap();
    let err = escrow.process_input(&mut store, &decision).unwrap_err();
    assert_eq!(err, EscrowInputError::InvalidSignature);
}

#[test]
fn arbiter_fee_above_cap_rejected() {
    // Cap is 100 bps of 1000 = 10 units; a 500 bps claim computes 50 units
    // and exceeds it.
    let (escrow, mut store) = setup(1000, 100, 0, "escrow-13", "code");
    let id = "escrow-13".to_owned();
    let buyer = client(0, BUYER);
    let dispute = buyer.initiate_dispute(id.clone()).unwrap();
    escrow.process_input(&mut store, &dispute).unwrap();
    let arbiter = client(0, ARBITER);
    let info = escrow.handle_get_module_info(&store, &id).unwrap();
    let decision = arbiter
        .arbiter_decision(id.clone(), "buyer".to_owned(), 500, info.amount)
        .unwrap();
    let err = escrow.process_input(&mut store, &decision).unwrap_err();
    assert_eq!(err, EscrowInputError::ArbiterFeeExceedsMaximum);
}

#[test]
fn dispute_after_resolution_rejected() {
    let (escrow, mut store) = setup(1000, 100, 0, "escrow-14", "code");
    let id = "escrow-14".to_owned();
    let seller = client(0, SELLER);
    let info = escrow.handle_get_module_info(&store, &id).unwrap();
    let claim = seller
        .claim_escrow(id.clone(), info.amount, "code".to_owned(), &info.state)
        .unwrap();
    escrow.process_input(&mut store, &claim).unwrap();
    let dispute = seller.initiate_dispute(id.clone()).unwrap();
    let err = escrow.process_input(&mut store, &dispute).unwrap_err();
    assert_eq!(err, EscrowInputError::InvalidStateForInitiatingDispute);
}

#[test]
fn unknown_escrow_rejected() {
    let (escrow, mut store) = setup(1000, 100, 0, "escrow-15", "code");
    let seller = client(0, SELLER);
    let claim = seller
        .claim_escrow(
            "no-such-escrow".to_owned(),
            Amount { msats: 1000 },
            "code".to_owned(),
            &EscrowStates::Open,
        )
        .unwrap();
    let err = escrow.process_input(&mut store, &claim).unwrap_err();
    assert_eq!(err, EscrowInputError::EscrowNotFound);
    let err = escrow
        .handle_get_module_info(&store, &"no-such-escrow".to_owned())
        .unwrap_err();
    assert_eq!(err, EscrowInputError::EscrowNotFound);
}

#[test]
fn claim_preconditions_fail_fast() {
    let seller = client(0, SELLER);
    // A disputed escrow cannot be claimed with the secret code.
    let err = seller
        .claim_escrow(
            "id".to_owned(),
            Amount { msats: 1 },
            "code".to_owned(),
            &EscrowStates::DisputedByBuyer,
        )
        .unwrap_err();
    assert_eq!(err, EscrowError::EscrowDisputed);
    // Waiting for the buyer: the seller must wait for the arbiter.
    let err = seller
        .claim_escrow(
            "id".to_owned(),
            Amount { msats: 1 },
            "code".to_owned(),
            &EscrowStates::WaitingforBuyerToClaim,
        )
        .unwrap_err();
    assert_eq!(err, EscrowError::ArbiterNotDecided);
    // The buyer cannot claim before the arbiter decided.
    let buyer = client(0, BUYER);
    let err = buyer
        .buyer_claim("id".to_owned(), Amount { msats: 1 }, &EscrowStates::Open)
        .unwrap_err();
    assert_eq!(err, EscrowError::ArbiterNotDecided);
    let err = buyer
        .buyer_claim(
            "id".to_owned(),
            Amount { msats: 1 },
            &EscrowStates::DisputedByBuyer,
        )
        .unwrap_err();
    assert_eq!(err, EscrowError::ArbiterNotDecided);
}

#[test]
fn invalid_arbiter_decision_string() {
    let arbiter = client(0, ARBITER);
    let err = arbiter
        .arbiter_decision(
            "id".to_owned(),
            "nobody".to_owned(),
            50,
            Amount { msats: 1000 },
        )
        .unwrap_err();
    assert_eq!(err, EscrowError::InvalidArbiterDecision);
}

#[test]
fn invalid_secret_key_rejected() {
    // All-zero bytes are not a valid secp256k1 secret key.
    let broken = EscrowClientModule::new(
        EscrowClientConfig {
            deposit_fee: Amount { msats: 0 },
            max_arbiter_fee_bps: 1000,
        },
        SecretKey { bytes: vec![0; 32] },
    );
    let err = broken.initiate_dispute("id".to_owned()).unwrap_err();
    assert_eq!(err, EscrowError::InvalidSecretKey);
    let err = broken
        .create_escrow(
            Amount { msats: 1 },
            &pk(SELLER),
            &pk(ARBITER),
            "id".to_owned(),
            hash256("c".to_owned()),
            100,
        )
        .unwrap_err();
    assert_eq!(err, EscrowError::InvalidSecretKey);
}

#[test]
fn secret_hash_round_trip() {
    // The commitment recomputed server-side matches for the right code and
    // mismatches for any other; known SHA-256 vectors pin the encoding.
    assert_eq!(
        hash256("abc".to_owned()),
        "ba7816bf8f01cfea414140de5dae2223b00361a396177a9cb410ff61f20015ad"
    );
    assert_eq!(
        hash256(String::new()),
        "e3b0c44298fc1c149afbf4c8996fb92427ae41e4649b934ca495991b7852b855"
    );
    assert_ne!(hash256("abc".to_owned()), hash256("abd".to_owned()));
}

#[test]
fn query_never_returns_commitment() {
    // The commitment is stored, yet no field of the query answer carries
    // it: the seller can only reveal the code, never read it back.
    let (escrow, store) = setup(1000, 100, 0, "escrow-16", "super secret");
    let info = escrow
        .handle_get_module_info(&store, &"escrow-16".to_owned())
        .unwrap();
    let shown = format!("{:?}", info);
    assert!(!shown.contains(&hash256("super secret".to_owned())));
}
