//! Module configuration and the fee policy: the flat deposit fee charged at
//! creation and the bounded arbiter fee, computed with integer arithmetic
//! only so that all guardians reach bit-identical results.

use vstd::prelude::*;

use crate::common::{Amount, EscrowError};

verus! {

/// The lowest arbiter fee cap a contract may set, in basis points (0.1%).
pub const MIN_ARBITER_FEE_BPS: u16 = 10;

/// The highest arbiter fee cap a contract may set, in basis points (10%).
pub const MAX_ARBITER_FEE_BPS: u16 = 1000;

/// Whether an arbiter fee cap in basis points lies in the configured range.
pub open spec fn fee_bps_in_range(bps: u16) -> bool {
    MIN_ARBITER_FEE_BPS <= bps <= MAX_ARBITER_FEE_BPS
}

/// The arbiter fee for a contract amount at a basis-point rate:
/// `floor(amount * bps / 10000)`.
pub open spec fn spec_arbiter_fee(amount_msats: u64, bps: u16) -> int {
    (amount_msats * bps) / 10000
}

/// The arbiter fee never exceeds the amount it is taken from, for any rate
/// up to 100%.
pub proof fn lemma_arbiter_fee_le_amount(amount_msats: u64, bps: u16)
    requires
        bps <= 10000,
    ensures
        0 <= spec_arbiter_fee(amount_msats, bps) <= amount_msats,
{
    assert(0 <= (amount_msats * bps) / 10000 <= amount_msats) by (nonlinear_arith)
        requires
            bps <= 10000,
    ;
}

/// Computes the arbiter fee for a contract amount at a basis-point rate,
/// rounding down, using integer arithmetic only.
pub fn compute_arbiter_fee(amount: Amount, bps: u16) -> (r: Amount)
    requires
        bps <= 10000,
    ensures
        r.msats == spec_arbiter_fee(amount.msats, bps),
        r.msats <= amount.msats,
{
    proof {
        lemma_arbiter_fee_le_amount(amount.msats, bps);
    }
    let prod: u128 = (amount.msats as u128) * (bps as u128);
    let fee: u128 = prod / 10000;
    Amount { msats: fee as u64 }
}

/// Parameters necessary to generate this module's configuration.
#[derive(Debug)]
pub struct EscrowGenParams {
    pub local: EscrowGenParamsLocal,
    pub consensus: EscrowGenParamsConsensus,
}

/// Local parameters for config generation.
#[derive(Debug)]
pub struct EscrowGenParamsLocal;

/// Consensus parameters for config generation.
#[derive(Debug)]
pub struct EscrowGenParamsConsensus {
    pub deposit_fee: Amount,
    pub max_arbiter_fee_bps: u16,
}

impl Default for EscrowGenParams {
    /// Parameters that levy no deposit fee and set no arbiter fee cap.
    fn default() -> (r: Self)
        ensures
            r.consensus.deposit_fee.msats == 0,
            r.consensus.max_arbiter_fee_bps == 0,
    {
        EscrowGenParams {
            local: EscrowGenParamsLocal,
            consensus: EscrowGenParamsConsensus {
                deposit_fee: Amount { msats: 0 },
                max_arbiter_fee_bps: 0,
            },
        }
    }
}

/// All the configuration of one guardian.
#[derive(Debug)]
pub struct EscrowConfig {
    pub local: EscrowConfigLocal,
    pub private: EscrowConfigPrivate,
    pub consensus: EscrowConfigConsensus,
}

/// Locally unencrypted config unique to each guardian.
#[derive(Debug)]
pub struct EscrowConfigLocal;

/// Config that is the same for every guardian.
#[derive(Debug)]
pub struct EscrowConfigConsensus {
    pub deposit_fee: Amount,
    pub max_arbiter_fee_bps: u16,
}

/// Encrypted, unshared config such as private key material.
#[derive(Debug)]
pub struct EscrowConfigPrivate;

/// The part of the configuration accessible to clients.
#[derive(Debug)]
pub struct EscrowClientConfig {
    pub deposit_fee: Amount,
    pub max_arbiter_fee_bps: u16,
}

impl EscrowClientConfig {
    /// Accepts an arbiter fee cap only inside the configured basis-point
    /// range of 10 (0.1%) to 1000 (10%).
    pub fn limit_max_arbiter_fee_bps(&self, max_arbiter_fee_bps: u16) -> (r: Result<
        u16,
        EscrowError,
    >)
        ensures
            fee_bps_in_range(max_arbiter_fee_bps) ==> r == Ok::<u16, EscrowError>(
                max_arbiter_fee_bps,
            ),
            !fee_bps_in_range(max_arbiter_fee_bps) ==> r == Err::<u16, EscrowError>(
                EscrowError::InvalidMaxArbiterFeeBps,
            ),
    {
        if max_arbiter_fee_bps < MIN_ARBITER_FEE_BPS || max_arbiter_fee_bps > MAX_ARBITER_FEE_BPS {
            Err(EscrowError::InvalidMaxArbiterFeeBps)
        } else {
            Ok(max_arbiter_fee_bps)
        }
    }
}

} // verus!
