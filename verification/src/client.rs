//! The client side of the module: per-role command entry points that
//! validate locally-checkable preconditions, hash the action-specific
//! message, sign it and build the instruction; and the tracker model of
//! one submitted operation's finite lifecycle. Submitting instructions and
//! awaiting the federation's outcome is I/O and lives with the caller.

use vstd::prelude::*;

use crate::common::{
    Amount, ArbiterDecision, EscrowError, EscrowInput, EscrowInputArbiterDecision,
    EscrowInputClaimingAfterDispute, EscrowInputClamingWithoutDispute, EscrowInputDisputing,
    EscrowOutput, EscrowStates, PublicKey, SecretKey, TransactionItemAmount,
};
use crate::config::{fee_bps_in_range, spec_arbiter_fee, compute_arbiter_fee, EscrowClientConfig};
use crate::crypto::{
    derive_public_key, pubkey_of, schnorr_sig_of, schnorr_sign, secret_key_valid, sha256_digest,
    sha256_of, sk_valid,
};

verus! {

/// The high-level state of one submitted transaction, as the tracker
/// reports it: a finite sequence `Created`, then `Accepted` or `Rejected`.
#[derive(Clone, Copy, Debug, PartialEq, Eq, Structural)]
pub enum EscrowOperationState {
    /// The transaction is being processed by the federation.
    Created,
    /// The federation durably accepted the transaction.
    Accepted,
    /// The federation rejected the transaction; no state changed.
    Rejected,
}

/// Whether a tracked operation consumes escrowed value (an input) or
/// creates it (an output that earmarks value locally until accepted).
#[derive(Clone, Copy, Debug, PartialEq, Eq, Structural)]
pub enum OperationKind {
    Input,
    Output,
}

/// One tracked operation: a single submitted instruction, from submission
/// to the federation's outcome. Discarded once resolved, except for what a
/// refund needs.
#[derive(Clone, Copy, Debug, PartialEq, Eq, Structural)]
pub struct ClientOperation {
    pub operation_id: u64,
    pub kind: OperationKind,
    pub transaction_id: u64,
    pub amount: Amount,
    pub lifecycle: EscrowOperationState,
}

impl ClientOperation {
    /// Starts tracking one submitted instruction.
    pub fn submit(operation_id: u64, kind: OperationKind, transaction_id: u64, amount: Amount) -> (r:
        ClientOperation)
        ensures
            r.operation_id == operation_id,
            r.kind == kind,
            r.transaction_id == transaction_id,
            r.amount == amount,
            r.lifecycle == EscrowOperationState::Created,
    {
        ClientOperation {
            operation_id,
            kind,
            transaction_id,
            amount,
            lifecycle: EscrowOperationState::Created,
        }
    }

    /// Applies the federation's outcome to a created operation. A rejected
    /// output operation returns its provisionally-earmarked value to the
    /// spendable pool: the returned amount is that refund, zero otherwise.
    pub fn resolve(&mut self, accepted: bool) -> (refund: Amount)
        requires
            old(self).lifecycle == EscrowOperationState::Created,
        ensures
            final(self).lifecycle == if accepted {
                EscrowOperationState::Accepted
            } else {
                EscrowOperationState::Rejected
            },
            final(self).operation_id == old(self).operation_id,
            final(self).kind == old(self).kind,
            final(self).transaction_id == old(self).transaction_id,
            final(self).amount == old(self).amount,
            refund.msats == if !accepted && old(self).kind == OperationKind::Output {
                old(self).amount.msats
            } else {
                0
            },
    {
        if accepted {
            self.lifecycle = EscrowOperationState::Accepted;
            Amount { msats: 0 }
        } else {
            self.lifecycle = EscrowOperationState::Rejected;
            if matches!(self.kind, OperationKind::Output) {
                self.amount
            } else {
                Amount { msats: 0 }
            }
        }
    }
}

/// What one poll of the federation reported back: a definitive outcome,
/// or a transport failure that is worth retrying and is never conflated
/// with a rejection.
#[derive(Clone, Copy, Debug, PartialEq, Eq, Structural)]
pub enum PollResult {
    /// The federation durably accepted the transaction.
    Accepted,
    /// The federation definitively rejected the transaction.
    Rejected,
    /// The federation could not be reached; the poll may be retried.
    Unreachable,
}

impl ClientOperation {
    /// Applies one poll to a created operation. A transport failure
    /// changes nothing and refunds nothing — only a definitive rejection
    /// releases earmarked value; a definitive outcome resolves the
    /// operation.
    pub fn apply_poll(&mut self, poll: PollResult) -> (refund: Amount)
        requires
            old(self).lifecycle == EscrowOperationState::Created,
        ensures
            poll == PollResult::Unreachable ==> *final(self) == *old(self) && refund.msats == 0,
            poll != PollResult::Unreachable ==> {
                &&& final(self).lifecycle == if poll == PollResult::Accepted {
                    EscrowOperationState::Accepted
                } else {
                    EscrowOperationState::Rejected
                }
                &&& final(self).operation_id == old(self).operation_id
                &&& final(self).kind == old(self).kind
                &&& final(self).transaction_id == old(self).transaction_id
                &&& final(self).amount == old(self).amount
                &&& refund.msats == if poll == PollResult::Rejected && old(self).kind
                    == OperationKind::Output {
                    old(self).amount.msats
                } else {
                    0
                }
            },
    {
        match poll {
            PollResult::Unreachable => Amount { msats: 0 },
            PollResult::Accepted => self.resolve(true),
            PollResult::Rejected => self.resolve(false),
        }
    }
}

/// The finite event sequence one tracked operation produces: `Created`,
/// then the terminal outcome. Resubscribing replays the same sequence.
pub fn operation_event_sequence(accepted: bool) -> (r: Vec<EscrowOperationState>)
    ensures
        r@.len() == 2,
        r@[0] == EscrowOperationState::Created,
        r@[1] == if accepted {
            EscrowOperationState::Accepted
        } else {
            EscrowOperationState::Rejected
        },
{
    let mut events: Vec<EscrowOperationState> = Vec::new();
    events.push(EscrowOperationState::Created);
    if accepted {
        events.push(EscrowOperationState::Accepted);
    } else {
        events.push(EscrowOperationState::Rejected);
    }
    events
}

/// The escrow client of one actor: the client configuration and the
/// actor's signing key.
pub struct EscrowClientModule {
    pub cfg: EscrowClientConfig,
    pub key: SecretKey,
}

/// Generates the client side of the module.
#[derive(Debug)]
pub struct EscrowClientInit;

impl EscrowClientModule {
    /// A client for the given configuration and signing key.
    pub fn new(cfg: EscrowClientConfig, key: SecretKey) -> (r: EscrowClientModule)
        ensures
            r.cfg == cfg,
            r.key == key,
    {
        EscrowClientModule { cfg, key }
    }

    /// The monetary value an input conveys to the surrounding transaction;
    /// a dispute moves no value.
    pub fn input_amount(&self, input: &EscrowInput) -> (r: Option<TransactionItemAmount>)
        ensures
            match *input {
                EscrowInput::ClamingWithoutDispute(i) => r == Some(
                    TransactionItemAmount { amount: i.amount, fee: Amount { msats: 0 } },
                ),
                EscrowInput::ClaimingAfterDispute(i) => r == Some(
                    TransactionItemAmount { amount: i.amount, fee: Amount { msats: 0 } },
                ),
                EscrowInput::ArbiterDecision(i) => r == Some(
                    TransactionItemAmount { amount: i.amount, fee: Amount { msats: 0 } },
                ),
                EscrowInput::Disputing(i) => r is None,
            },
    {
        match input {
            EscrowInput::ClamingWithoutDispute(i) => Some(
                TransactionItemAmount { amount: i.amount, fee: Amount { msats: 0 } },
            ),
            EscrowInput::ClaimingAfterDispute(i) => Some(
                TransactionItemAmount { amount: i.amount, fee: Amount { msats: 0 } },
            ),
            EscrowInput::ArbiterDecision(i) => Some(
                TransactionItemAmount { amount: i.amount, fee: Amount { msats: 0 } },
            ),
            EscrowInput::Disputing(_) => None,
        }
    }

    /// The monetary value an output conveys: the locked amount, plus the
    /// flat deposit fee the federation levies for using the escrow service.
    pub fn output_amount(&self, output: &EscrowOutput) -> (r: TransactionItemAmount)
        ensures
            r.amount == output.amount,
            r.fee == self.cfg.deposit_fee,
    {
        TransactionItemAmount { amount: output.amount, fee: self.cfg.deposit_fee }
    }

    /// Builds the buyer's creation output: fails fast when the fee cap is
    /// out of range or the buyer's key is invalid; otherwise the output
    /// locks `amount` under the given id and commitment, with the buyer's
    /// own public key as refund identity.
    pub fn create_escrow(
        &self,
        amount: Amount,
        seller_pubkey: &PublicKey,
        arbiter_pubkey: &PublicKey,
        escrow_id: String,
        secret_code_hash: String,
        max_arbiter_fee_bps: u16,
    ) -> (r: Result<EscrowOutput, EscrowError>)
        ensures
            match r {
                Ok(o) => {
                    &&& fee_bps_in_range(max_arbiter_fee_bps)
                    &&& sk_valid(self.key@)
                    &&& o.amount == amount
                    &&& o.buyer_pubkey@ == pubkey_of(self.key@)
                    &&& o.seller_pubkey@ == seller_pubkey@
                    &&& o.arbiter_pubkey@ == arbiter_pubkey@
                    &&& o.escrow_id@ == escrow_id@
                    &&& o.secret_code_hash@ == secret_code_hash@
                    &&& o.max_arbiter_fee_bps == max_arbiter_fee_bps
                },
                Err(e) => {
                    if !fee_bps_in_range(max_arbiter_fee_bps) {
                        e == EscrowError::InvalidMaxArbiterFeeBps
                    } else {
                        !sk_valid(self.key@) && e == EscrowError::InvalidSecretKey
                    }
                },
            },
    {
        let bps = match self.cfg.limit_max_arbiter_fee_bps(max_arbiter_fee_bps) {
            Ok(bps) => bps,
            Err(e) => { return Err(e) },
        };
        if !secret_key_valid(&self.key) {
            return Err(EscrowError::InvalidSecretKey);
        }
        let buyer_pubkey = derive_public_key(&self.key);
        Ok(
            EscrowOutput {
                amount,
                buyer_pubkey,
                seller_pubkey: seller_pubkey.dup(),
                arbiter_pubkey: arbiter_pubkey.dup(),
                escrow_id,
                secret_code_hash,
                max_arbiter_fee_bps: bps,
            },
        )
    }

    /// Builds the seller's claim of an open escrow: fails fast when the
    /// observed contract state is disputed or not yet claimable; otherwise
    /// the input carries the revealed secret code, signed by the seller
    /// over its hash.
    pub fn claim_escrow(
        &self,
        escrow_id: String,
        amount: Amount,
        secret_code: String,
        current_state: &EscrowStates,
    ) -> (r: Result<EscrowInput, EscrowError>)
        ensures
            match r {
                Ok(input) => {
                    &&& claim_state_allowed(*current_state) is Ok
                    &&& sk_valid(self.key@)
                    &&& input matches EscrowInput::ClamingWithoutDispute(i) && {
                        &&& i.amount == amount
                        &&& i.escrow_id@ == escrow_id@
                        &&& i.secret_code@ == secret_code@
                        &&& i.hashed_message@ == sha256_of(secret_code@)
                        &&& i.signature@ == schnorr_sig_of(self.key@, sha256_of(secret_code@))
                    }
                },
                Err(e) => {
                    if claim_state_allowed(*current_state) is Err {
                        e == claim_state_allowed(*current_state)->Err_0
                    } else {
                        !sk_valid(self.key@) && e == EscrowError::InvalidSecretKey
                    }
                },
            },
    {
        if let Err(e) = check_claim_state(current_state) {
            return Err(e);
        }
        if !secret_key_valid(&self.key) {
            return Err(EscrowError::InvalidSecretKey);
        }
        let hashed_message = sha256_digest(secret_code.as_str());
        let signature = schnorr_sign(&self.key, &hashed_message);
        Ok(
            EscrowInput::ClamingWithoutDispute(
                EscrowInputClamingWithoutDispute {
                    amount,
                    escrow_id,
                    secret_code,
                    hashed_message,
                    signature,
                },
            ),
        )
    }

    /// Builds the buyer's claim after the arbiter decided in the buyer's
    /// favour: fails fast unless the observed state waits for the buyer.
    pub fn buyer_claim(
        &self,
        escrow_id: String,
        amount: Amount,
        current_state: &EscrowStates,
    ) -> (r: Result<EscrowInput, EscrowError>)
        ensures
            match r {
                Ok(input) => {
                    &&& *current_state == EscrowStates::WaitingforBuyerToClaim
                    &&& sk_valid(self.key@)
                    &&& input matches EscrowInput::ClaimingAfterDispute(i) && {
                        &&& i.amount == amount
                        &&& i.escrow_id@ == escrow_id@
                        &&& i.hashed_message@ == sha256_of("buyer_claim"@)
                        &&& i.signature@ == schnorr_sig_of(self.key@, sha256_of("buyer_claim"@))
                    }
                },
                Err(e) => {
                    if *current_state != EscrowStates::WaitingforBuyerToClaim {
                        e == EscrowError::ArbiterNotDecided
                    } else {
                        !sk_valid(self.key@) && e == EscrowError::InvalidSecretKey
                    }
                },
            },
    {
        if !matches!(current_state, EscrowStates::WaitingforBuyerToClaim) {
            return Err(EscrowError::ArbiterNotDecided);
        }
        if !secret_key_valid(&self.key) {
            return Err(EscrowError::InvalidSecretKey);
        }
        let hashed_message = sha256_digest("buyer_claim");
        let signature = schnorr_sign(&self.key, &hashed_message);
        Ok(
            EscrowInput::ClaimingAfterDispute(
                EscrowInputClaimingAfterDispute { amount, escrow_id, hashed_message, signature },
            ),
        )
    }

    /// Builds the seller's claim after the arbiter decided in the seller's
    /// favour: fails fast unless the observed state waits for the seller.
    pub fn seller_claim(
        &self,
        escrow_id: String,
        amount: Amount,
        current_state: &EscrowStates,
    ) -> (r: Result<EscrowInput, EscrowError>)
        ensures
            match r {
                Ok(input) => {
                    &&& *current_state == EscrowStates::WaitingforSellerToClaim
                    &&& sk_valid(self.key@)
                    &&& input matches EscrowInput::ClaimingAfterDispute(i) && {
                        &&& i.amount == amount
                        &&& i.escrow_id@ == escrow_id@
                        &&& i.hashed_message@ == sha256_of("seller_claim"@)
                        &&& i.signature@ == schnorr_sig_of(self.key@, sha256_of("seller_claim"@))
                    }
                },
                Err(e) => {
                    if *current_state != EscrowStates::WaitingforSellerToClaim {
                        e == EscrowError::ArbiterNotDecided
                    } else {
                        !sk_valid(self.key@) && e == EscrowError::InvalidSecretKey
                    }
                },
            },
    {
        if !matches!(current_state, EscrowStates::WaitingforSellerToClaim) {
            return Err(EscrowError::ArbiterNotDecided);
        }
        if !secret_key_valid(&self.key) {
            return Err(EscrowError::InvalidSecretKey);
        }
        let hashed_message = sha256_digest("seller_claim");
        let signature = schnorr_sign(&self.key, &hashed_message);
        Ok(
            EscrowInput::ClaimingAfterDispute(
                EscrowInputClaimingAfterDispute { amount, escrow_id, hashed_message, signature },
            ),
        )
    }

    /// Builds a dispute in the caller's own name, signed over the fixed
    /// dispute-intent message. Whether the caller is authorized (buyer or
    /// seller of this contract) is decided at consensus time.
    pub fn initiate_dispute(&self, escrow_id: String) -> (r: Result<EscrowInput, EscrowError>)
        ensures
            match r {
                Ok(input) => {
                    &&& sk_valid(self.key@)
                    &&& input matches EscrowInput::Disputing(i) && {
                        &&& i.escrow_id@ == escrow_id@
                        &&& i.disputer@ == pubkey_of(self.key@)
                        &&& i.hashed_message@ == sha256_of("dispute"@)
                        &&& i.signature@ == schnorr_sig_of(self.key@, sha256_of("dispute"@))
                    }
                },
                Err(e) => !sk_valid(self.key@) && e == EscrowError::InvalidSecretKey,
            },
    {
        if !secret_key_valid(&self.key) {
            return Err(EscrowError::InvalidSecretKey);
        }
        let disputer = derive_public_key(&self.key);
        let hashed_message = sha256_digest("dispute");
        let signature = schnorr_sign(&self.key, &hashed_message);
        Ok(
            EscrowInput::Disputing(
                EscrowInputDisputing { escrow_id, disputer, hashed_message, signature },
            ),
        )
    }

    /// Builds the arbiter's decision: the winner is named `buyer` or
    /// `seller`, the fee claim is computed from the observed contract
    /// amount at the given basis-point rate and checked against the
    /// configured range, and the decision string is what gets signed.
    pub fn arbiter_decision(
        &self,
        escrow_id: String,
        decision: String,
        arbiter_fee_bps: u16,
        contract_amount: Amount,
    ) -> (r: Result<EscrowInput, EscrowError>)
        ensures
            match r {
                Ok(input) => {
                    &&& decision@ == "buyer"@ || decision@ == "seller"@
                    &&& fee_bps_in_range(arbiter_fee_bps)
                    &&& sk_valid(self.key@)
                    &&& input matches EscrowInput::ArbiterDecision(i) && {
                        &&& i.escrow_id@ == escrow_id@
                        &&& i.arbiter_decision == (if decision@ == "buyer"@ {
                            ArbiterDecision::BuyerWins
                        } else {
                            ArbiterDecision::SellerWins
                        })
                        &&& i.amount.msats == spec_arbiter_fee(
                            contract_amount.msats,
                            arbiter_fee_bps,
                        )
                        &&& i.hashed_message@ == sha256_of(decision@)
                        &&& i.signature@ == schnorr_sig_of(self.key@, sha256_of(decision@))
                    }
                },
                Err(e) => {
                    if decision@ != "buyer"@ && decision@ != "seller"@ {
                        e == EscrowError::InvalidArbiterDecision
                    } else if !fee_bps_in_range(arbiter_fee_bps) {
                        e == EscrowError::InvalidMaxArbiterFeeBps
                    } else {
                        !sk_valid(self.key@) && e == EscrowError::InvalidSecretKey
                    }
                },
            },
    {
        let arbiter_decision = if decision == "buyer".to_owned() {
            ArbiterDecision::BuyerWins
        } else if decision == "seller".to_owned() {
            ArbiterDecision::SellerWins
        } else {
            return Err(EscrowError::InvalidArbiterDecision);
        };
        if let Err(e) = self.cfg.limit_max_arbiter_fee_bps(arbiter_fee_bps) {
            return Err(e);
        }
        if !secret_key_valid(&self.key) {
            return Err(EscrowError::InvalidSecretKey);
        }
        let arbiter_fee = compute_arbiter_fee(contract_amount, arbiter_fee_bps);
        let hashed_message = sha256_digest(decision.as_str());
        let signature = schnorr_sign(&self.key, &hashed_message);
        Ok(
            EscrowInput::ArbiterDecision(
                EscrowInputArbiterDecision {
                    amount: arbiter_fee,
                    escrow_id,
                    arbiter_decision,
                    hashed_message,
                    signature,
                },
            ),
        )
    }
}

/// Whether the observed contract state lets the seller claim with the
/// secret code: a disputed escrow cannot be claimed, and after a dispute
/// the seller must wait for the arbiter's decision in their favour.
pub open spec fn claim_state_allowed(state: EscrowStates) -> Result<
    (),
    EscrowError,
> {
    if state == EscrowStates::DisputedByBuyer || state
        == EscrowStates::DisputedBySeller {
        Err(EscrowError::EscrowDisputed)
    } else if state != EscrowStates::Open && state
        != EscrowStates::WaitingforSellerToClaim {
        Err(EscrowError::ArbiterNotDecided)
    } else {
        Ok(())
    }
}

/// Checks `claim_state_allowed` at run time.
fn check_claim_state(state: &EscrowStates) -> (r: Result<(), EscrowError>)
    ensures
        r == claim_state_allowed(*state),
{
    if matches!(state, EscrowStates::DisputedByBuyer)
        || matches!(state, EscrowStates::DisputedBySeller) {
        Err(EscrowError::EscrowDisputed)
    } else if !matches!(state, EscrowStates::Open)
        && !matches!(state, EscrowStates::WaitingforSellerToClaim) {
        Err(EscrowError::ArbiterNotDecided)
    } else {
        Ok(())
    }
}

} // verus!
