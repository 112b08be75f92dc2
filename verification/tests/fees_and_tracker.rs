//! The fee policy boundaries and the client operation tracker.

use fedimint_escrow::client::{
    operation_event_sequence, ClientOperation, EscrowClientModule, EscrowOperationState,
    OperationKind, PollResult,
};
use fedimint_escrow::common::{Amount, EscrowError, EscrowInput, EscrowStates, SecretKey};
use fedimint_escrow::config::{
    compute_arbiter_fee, EscrowClientConfig, EscrowGenParams, EscrowGenParamsConsensus,
    EscrowGenParamsLocal,
};
use fedimint_escrow::server::EscrowInit;

fn cfg() -> EscrowClientConfig {
    EscrowClientConfig {
        deposit_fee: Amount { msats: 11 },
        max_arbiter_fee_bps: 1000,
    }
}

#[test]
fn fee_bps_boundaries() {
    let c = cfg();
    assert_eq!(c.limit_max_arbiter_fee_bps(10), Ok(10));
    assert_eq!(c.limit_max_arbiter_fee_bps(1000), Ok(1000));
    assert_eq!(
        c.limit_max_arbiter_fee_bps(9),
        Err(EscrowError::InvalidMaxArbiterFeeBps)
    );
    assert_eq!(
        c.limit_max_arbiter_fee_bps(1001),
        Err(EscrowError::InvalidMaxArbiterFeeBps)
    );
}

#[test]
fn create_escrow_bps_boundaries() {
    let client = EscrowClientModule::new(cfg(), SecretKey { bytes: vec![5; 32] });
    let seller = fedimint_escrow::common::PublicKey { bytes: vec![2; 33] };
    let arbiter = fedimint_escrow::common::PublicKey { bytes: vec![3; 33] };
    for (bps, ok) in [(9u16, false), (10, true), (1000, true), (1001, false)] {
        let r = client.create_escrow(
            Amount { msats: 1000 },
            &seller,
            &arbiter,
            "id".to_owned(),
            "hash".to_owned(),
            bps,
        );
        if ok {
            assert!(r.is_ok());
        } else {
            assert_eq!(r.unwrap_err(), EscrowError::InvalidMaxArbiterFeeBps);
        }
    }
}

#[test]
fn arbiter_fee_is_integer_floor() {
    // floor(amount * bps / 10000), bit-identical on every guardian.
    assert_eq!(compute_arbiter_fee(Amount { msats: 1000 }, 50).msats, 5);
    assert_eq!(compute_arbiter_fee(Amount { msats: 1000 }, 100).msats, 10);
    assert_eq!(compute_arbiter_fee(Amount { msats: 999 }, 10).msats, 0);
    assert_eq!(compute_arbiter_fee(Amount { msats: 19_999 }, 1000).msats, 1999);
    assert_eq!(
        compute_arbiter_fee(Amount { msats: u64::MAX }, 10000).msats,
        u64::MAX
    );
}

#[test]
fn declared_amounts() {
    let client = EscrowClientModule::new(cfg(), SecretKey { bytes: vec![5; 32] });
    let claim = client
        .claim_escrow(
            "id".to_owned(),
            Amount { msats: 42 },
            "code".to_owned(),
            &EscrowStates::Open,
        )
        .unwrap();
    let declared = client.input_amount(&claim).unwrap();
    assert_eq!(declared.amount.msats, 42);
    assert_eq!(declared.fee.msats, 0);

    let dispute = client.initiate_dispute("id".to_owned()).unwrap();
    assert!(client.input_amount(&dispute).is_none());
    assert!(matches!(dispute, EscrowInput::Disputing(_)));
}

#[test]
fn config_generation_agrees_across_peers() {
    let params = EscrowGenParams {
        local: EscrowGenParamsLocal,
        consensus: EscrowGenParamsConsensus {
            deposit_fee: Amount { msats: 42 },
            max_arbiter_fee_bps: 250,
        },
    };
    let init = EscrowInit;
    let configs = init.trusted_dealer_gen(4, &params);
    assert_eq!(configs.len(), 4);
    for config in &configs {
        assert_eq!(config.consensus.deposit_fee.msats, 42);
        assert_eq!(config.consensus.max_arbiter_fee_bps, 250);
        let client_cfg = init.get_client_config(&config.consensus);
        assert_eq!(client_cfg.deposit_fee.msats, 42);
        assert_eq!(client_cfg.max_arbiter_fee_bps, 250);
    }
    let default_params = EscrowGenParams::default();
    assert_eq!(default_params.consensus.deposit_fee.msats, 0);
    assert_eq!(default_params.consensus.max_arbiter_fee_bps, 0);
}

#[test]
fn tracker_refunds_rejected_outputs() {
    // Created -> Rejected on an output returns the earmarked value.
    let mut op = ClientOperation::submit(1, OperationKind::Output, 9, Amount { msats: 500 });
    assert_eq!(op.lifecycle, EscrowOperationState::Created);
    let refund = op.resolve(false);
    assert_eq!(op.lifecycle, EscrowOperationState::Rejected);
    assert_eq!(refund.msats, 500);

    // Created -> Accepted keeps the value locked.
    let mut op = ClientOperation::submit(2, OperationKind::Output, 9, Amount { msats: 500 });
    let refund = op.resolve(true);
    assert_eq!(op.lifecycle, EscrowOperationState::Accepted);
    assert_eq!(refund.msats, 0);

    // A rejected input earmarks nothing, so nothing is refunded.
    let mut op = ClientOperation::submit(3, OperationKind::Input, 9, Amount { msats: 500 });
    let refund = op.resolve(false);
    assert_eq!(refund.msats, 0);
}

#[test]
fn transport_failure_is_not_a_rejection() {
    // An unreachable federation leaves the operation Created and refunds
    // nothing; only a definitive rejection releases the earmarked value.
    let mut op = ClientOperation::submit(7, OperationKind::Output, 9, Amount { msats: 800 });
    let refund = op.apply_poll(PollResult::Unreachable);
    assert_eq!(op.lifecycle, EscrowOperationState::Created);
    assert_eq!(refund.msats, 0);
    // The retry may then observe the definitive outcome.
    let refund = op.apply_poll(PollResult::Rejected);
    assert_eq!(op.lifecycle, EscrowOperationState::Rejected);
    assert_eq!(refund.msats, 800);
}

#[test]
fn tracker_event_sequence_is_finite() {
    let accepted = operation_event_sequence(true);
    assert_eq!(
        accepted,
        vec![EscrowOperationState::Created, EscrowOperationState::Accepted]
    );
    let rejected = operation_event_sequence(false);
    assert_eq!(
        rejected,
        vec![EscrowOperationState::Created, EscrowOperationState::Rejected]
    );
}
