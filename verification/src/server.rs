//! The consensus-critical escrow state machine. Given the current store
//! contents and one instruction, every guardian deterministically computes
//! the same answer: the next contract state and the value transfer, or a
//! named rejection. The spec functions in this module are the mathematical
//! model of that automaton; `process_input` and `process_output` are proved
//! against them.

use vstd::prelude::*;

use crate::common::{
    Amount, ArbiterDecision, Disputer, EscrowInput, EscrowInputArbiterDecision,
    EscrowInputClaimingAfterDispute, EscrowInputClamingWithoutDispute, EscrowInputDisputing,
    EscrowConsensusItem, EscrowInputError, EscrowOutput, EscrowOutputError, EscrowStates,
    InputMeta, PublicKey, TransactionItemAmount,
};
use crate::config::{
    compute_arbiter_fee, fee_bps_in_range, spec_arbiter_fee, EscrowClientConfig, EscrowConfig,
    EscrowConfigConsensus, EscrowConfigLocal, EscrowConfigPrivate, EscrowGenParams,
    MAX_ARBITER_FEE_BPS, MIN_ARBITER_FEE_BPS,
};
use crate::crypto::{hash256, schnorr_verifies, schnorr_verify, sha256_hex_of};
use crate::db::{ContractStore, EscrowKey, EscrowValue, EscrowValueView};
use crate::endpoints::EscrowInfo;

verus! {

/// The escrow id an input addresses.
pub open spec fn input_escrow_id(input: EscrowInput) -> Seq<char> {
    match input {
        EscrowInput::ClamingWithoutDispute(i) => i.escrow_id@,
        EscrowInput::Disputing(i) => i.escrow_id@,
        EscrowInput::ClaimingAfterDispute(i) => i.escrow_id@,
        EscrowInput::ArbiterDecision(i) => i.escrow_id@,
    }
}

/// A seller's claim without dispute is accepted exactly when the contract
/// is open, the signature verifies under the seller's key, and the revealed
/// secret code hashes to the stored commitment.
pub open spec fn claim_without_dispute_ok(
    c: EscrowValueView,
    i: EscrowInputClamingWithoutDispute,
) -> bool {
    &&& c.state == EscrowStates::Open
    &&& schnorr_verifies(c.seller_pubkey, i.hashed_message@, i.signature@)
    &&& sha256_hex_of(i.secret_code@) == c.secret_code_hash
}

/// A dispute is accepted exactly when the disputer is the buyer or the
/// seller, the signature verifies under the disputer's key, and the
/// contract is open.
pub open spec fn disputing_ok(c: EscrowValueView, i: EscrowInputDisputing) -> bool {
    &&& i.disputer@ == c.buyer_pubkey || i.disputer@ == c.seller_pubkey
    &&& schnorr_verifies(i.disputer@, i.hashed_message@, i.signature@)
    &&& c.state == EscrowStates::Open
}

/// An arbiter decision is accepted exactly when the contract is disputed,
/// the signature verifies under the arbiter's key, and the claimed fee does
/// not exceed the contract's cap.
pub open spec fn arbiter_decision_ok(c: EscrowValueView, i: EscrowInputArbiterDecision) -> bool {
    &&& c.state == EscrowStates::DisputedByBuyer || c.state == EscrowStates::DisputedBySeller
    &&& schnorr_verifies(c.arbiter_pubkey, i.hashed_message@, i.signature@)
    &&& i.amount.msats <= c.max_arbiter_fee_msats
}

/// A claim after a dispute is accepted exactly when the contract waits for
/// the winner's claim and the signature verifies under the winner's key.
pub open spec fn claim_after_dispute_ok(
    c: EscrowValueView,
    i: EscrowInputClaimingAfterDispute,
) -> bool {
    ||| c.state == EscrowStates::WaitingforBuyerToClaim && schnorr_verifies(
        c.buyer_pubkey,
        i.hashed_message@,
        i.signature@,
    )
    ||| c.state == EscrowStates::WaitingforSellerToClaim && schnorr_verifies(
        c.seller_pubkey,
        i.hashed_message@,
        i.signature@,
    )
}

/// Whether an input is accepted against the contract stored under its id.
pub open spec fn input_ok(c: EscrowValueView, input: EscrowInput) -> bool {
    match input {
        EscrowInput::ClamingWithoutDispute(i) => claim_without_dispute_ok(c, i),
        EscrowInput::Disputing(i) => disputing_ok(c, i),
        EscrowInput::ClaimingAfterDispute(i) => claim_after_dispute_ok(c, i),
        EscrowInput::ArbiterDecision(i) => arbiter_decision_ok(c, i),
    }
}

/// The named error of the first guard a rejected input fails, in the order
/// the state machine checks the guards.
pub open spec fn input_err(c: EscrowValueView, input: EscrowInput) -> EscrowInputError
    recommends
        !input_ok(c, input),
{
    match input {
        EscrowInput::ClamingWithoutDispute(i) => {
            if c.state != EscrowStates::Open {
                EscrowInputError::InvalidStateForClaimingEscrow
            } else if !schnorr_verifies(c.seller_pubkey, i.hashed_message@, i.signature@) {
                EscrowInputError::InvalidSignature
            } else {
                EscrowInputError::InvalidSecretCode
            }
        },
        EscrowInput::Disputing(i) => {
            if i.disputer@ != c.buyer_pubkey && i.disputer@ != c.seller_pubkey {
                EscrowInputError::UnauthorizedToDispute
            } else if !schnorr_verifies(i.disputer@, i.hashed_message@, i.signature@) {
                EscrowInputError::InvalidSignature
            } else {
                EscrowInputError::InvalidStateForInitiatingDispute
            }
        },
        EscrowInput::ClaimingAfterDispute(i) => {
            if c.state != EscrowStates::WaitingforBuyerToClaim && c.state
                != EscrowStates::WaitingforSellerToClaim {
                EscrowInputError::InvalidStateForClaimingEscrow
            } else {
                EscrowInputError::InvalidSignature
            }
        },
        EscrowInput::ArbiterDecision(i) => {
            if c.state != EscrowStates::DisputedByBuyer && c.state
                != EscrowStates::DisputedBySeller {
                EscrowInputError::EscrowNotDisputed
            } else if !schnorr_verifies(c.arbiter_pubkey, i.hashed_message@, i.signature@) {
                EscrowInputError::InvalidSignature
            } else {
                EscrowInputError::ArbiterFeeExceedsMaximum
            }
        },
    }
}

/// The contract after an accepted input. Only an arbiter decision moves
/// value out of `amount` (the fee); claims record the terminal state and
/// leave `amount` as the remaining value paid to the recipient.
pub open spec fn input_next(c: EscrowValueView, input: EscrowInput) -> EscrowValueView
    recommends
        input_ok(c, input),
{
    match input {
        EscrowInput::ClamingWithoutDispute(i) => EscrowValueView {
            state: EscrowStates::ResolvedWithoutDispute,
            ..c
        },
        EscrowInput::Disputing(i) => EscrowValueView {
            state: if i.disputer@ == c.buyer_pubkey {
                EscrowStates::DisputedByBuyer
            } else {
                EscrowStates::DisputedBySeller
            },
            ..c
        },
        EscrowInput::ClaimingAfterDispute(i) => EscrowValueView {
            state: EscrowStates::ResolvedWithDispute,
            ..c
        },
        EscrowInput::ArbiterDecision(i) => EscrowValueView {
            state: if i.arbiter_decision == ArbiterDecision::BuyerWins {
                EscrowStates::WaitingforBuyerToClaim
            } else {
                EscrowStates::WaitingforSellerToClaim
            },
            amount_msats: (c.amount_msats - i.amount.msats) as u64,
            ..c
        },
    }
}

/// What an accepted input pays out, in millisatoshis: the remaining
/// contract amount for claims, the fee for an arbiter decision, nothing for
/// a dispute.
pub open spec fn input_payout(c: EscrowValueView, input: EscrowInput) -> u64 {
    match input {
        EscrowInput::ClamingWithoutDispute(i) => c.amount_msats,
        EscrowInput::Disputing(i) => 0u64,
        EscrowInput::ClaimingAfterDispute(i) => c.amount_msats,
        EscrowInput::ArbiterDecision(i) => i.amount.msats,
    }
}

/// Who an accepted input pays: the seller for a claim without dispute, the
/// arbiter for a decision, the designated winner for a claim after dispute.
pub open spec fn input_recipient(c: EscrowValueView, input: EscrowInput) -> Seq<u8> {
    match input {
        EscrowInput::ClamingWithoutDispute(i) => c.seller_pubkey,
        EscrowInput::Disputing(i) => i.disputer@,
        EscrowInput::ClaimingAfterDispute(i) => if c.state == EscrowStates::WaitingforBuyerToClaim {
            c.buyer_pubkey
        } else {
            c.seller_pubkey
        },
        EscrowInput::ArbiterDecision(i) => c.arbiter_pubkey,
    }
}

/// The contract a creation output inserts: open, with the locked amount and
/// the absolute fee cap computed from the basis-point cap.
pub open spec fn output_contract(output: EscrowOutput, created_at: u64) -> EscrowValueView {
    EscrowValueView {
        buyer_pubkey: output.buyer_pubkey@,
        seller_pubkey: output.seller_pubkey@,
        arbiter_pubkey: output.arbiter_pubkey@,
        amount_msats: output.amount.msats,
        secret_code_hash: output.secret_code_hash@,
        max_arbiter_fee_msats: spec_arbiter_fee(
            output.amount.msats,
            output.max_arbiter_fee_bps,
        ) as u64,
        state: EscrowStates::Open,
        created_at: created_at,
    }
}

/// Generates the server side of the module.
#[derive(Debug)]
pub struct EscrowInit;

impl EscrowInit {
    /// Generates configs for all peers in a trusted manner: every peer
    /// receives the same consensus parameters, as agreement requires.
    pub fn trusted_dealer_gen(&self, n_peers: usize, params: &EscrowGenParams) -> (r: Vec<
        EscrowConfig,
    >)
        ensures
            r@.len() == n_peers,
            forall|k: int|
                0 <= k < n_peers ==> {
                    &&& (#[trigger] r@[k]).consensus.deposit_fee
                        == params.consensus.deposit_fee
                    &&& r@[k].consensus.max_arbiter_fee_bps
                        == params.consensus.max_arbiter_fee_bps
                },
    {
        let mut configs: Vec<EscrowConfig> = Vec::new();
        let mut peer: usize = 0;
        while peer < n_peers
            invariant
                0 <= peer <= n_peers,
                configs@.len() == peer,
                forall|k: int|
                    0 <= k < peer ==> {
                        &&& (#[trigger] configs@[k]).consensus.deposit_fee
                            == params.consensus.deposit_fee
                        &&& configs@[k].consensus.max_arbiter_fee_bps
                            == params.consensus.max_arbiter_fee_bps
                    },
            decreases n_peers - peer,
        {
            configs.push(self.distributed_gen(params));
            peer += 1;
        }
        configs
    }

    /// Generates one guardian's config from the agreed parameters.
    pub fn distributed_gen(&self, params: &EscrowGenParams) -> (r: EscrowConfig)
        ensures
            r.consensus.deposit_fee == params.consensus.deposit_fee,
            r.consensus.max_arbiter_fee_bps == params.consensus.max_arbiter_fee_bps,
    {
        EscrowConfig {
            local: EscrowConfigLocal,
            private: EscrowConfigPrivate,
            consensus: EscrowConfigConsensus {
                deposit_fee: params.consensus.deposit_fee,
                max_arbiter_fee_bps: params.consensus.max_arbiter_fee_bps,
            },
        }
    }

    /// Converts the consensus config into the part clients may see.
    pub fn get_client_config(&self, config: &EscrowConfigConsensus) -> (r: EscrowClientConfig)
        ensures
            r.deposit_fee == config.deposit_fee,
            r.max_arbiter_fee_bps == config.max_arbiter_fee_bps,
    {
        EscrowClientConfig {
            deposit_fee: config.deposit_fee,
            max_arbiter_fee_bps: config.max_arbiter_fee_bps,
        }
    }
}

/// The escrow module of one guardian.
#[derive(Debug)]
pub struct Escrow {
    pub cfg: EscrowConfig,
}

impl Escrow {
    /// Creates a new module instance.
    pub fn new(cfg: EscrowConfig) -> (r: Escrow)
        ensures
            r.cfg == cfg,
    {
        Escrow { cfg }
    }

    /// The escrow module proposes no consensus items of its own: the
    /// surrounding transaction is the only thing guardians agree on.
    pub fn consensus_proposal(&self) -> (r: Vec<EscrowConsensusItem>)
        ensures
            r@.len() == 0,
    {
        Vec::new()
    }

    /// The key a contract is stored under.
    pub fn get_escrow_key(&self, escrow_id: String) -> (r: EscrowKey)
        ensures
            r.escrow_id@ == escrow_id@,
    {
        EscrowKey { escrow_id }
    }

    /// Answers a contract query: the contract summary for the given id,
    /// without the secret code commitment.
    pub fn handle_get_module_info(&self, store: &ContractStore, escrow_id: &String) -> (r: Result<
        EscrowInfo,
        EscrowInputError,
    >)
        requires
            store.wf(),
        ensures
            r is Ok <==> store.spec_contains(escrow_id@),
            r matches Ok(info) ==> {
                let c = store.spec_get(escrow_id@)@;
                &&& info.buyer_pubkey@ == c.buyer_pubkey
                &&& info.seller_pubkey@ == c.seller_pubkey
                &&& info.arbiter_pubkey@ == c.arbiter_pubkey
                &&& info.amount.msats == c.amount_msats
                &&& info.state == c.state
                &&& info.max_arbiter_fee.msats == c.max_arbiter_fee_msats
            },
            r matches Err(e) ==> e == EscrowInputError::EscrowNotFound,
    {
        let escrow_value = match store.get(escrow_id) {
            Some(v) => v,
            None => { return Err(EscrowInputError::EscrowNotFound) },
        };
        Ok(
            EscrowInfo {
                buyer_pubkey: escrow_value.buyer_pubkey.dup(),
                seller_pubkey: escrow_value.seller_pubkey.dup(),
                arbiter_pubkey: escrow_value.arbiter_pubkey.dup(),
                amount: escrow_value.amount,
                state: escrow_value.state,
                max_arbiter_fee: escrow_value.max_arbiter_fee,
            },
        )
    }

    /// Looks the contract up that an instruction addresses.
    fn get_escrow_value<'a>(&self, store: &'a ContractStore, escrow_id: &String) -> (r: Result<
        &'a EscrowValue,
        EscrowInputError,
    >)
        requires
            store.wf(),
        ensures
            r is Ok <==> store.spec_contains(escrow_id@),
            r matches Ok(v) ==> *v == store.spec_get(escrow_id@) && v@.inv(),
            r matches Err(e) ==> e == EscrowInputError::EscrowNotFound,
    {
        match store.get(escrow_id) {
            Some(v) => Ok(v),
            None => Err(EscrowInputError::EscrowNotFound),
        }
    }

    /// Creates a new escrow contract: rejected if the id is already taken
    /// or the fee cap is out of range; otherwise the contract is stored
    /// open, and the declared amounts (locked value plus the configured
    /// deposit fee) feed the surrounding transaction's balance check.
    pub fn process_output(
        &self,
        store: &mut ContractStore,
        output: &EscrowOutput,
        created_at: u64,
    ) -> (r: Result<TransactionItemAmount, EscrowOutputError>)
        requires
            old(store).wf(),
        ensures
            final(store).wf(),
            match r {
                Ok(meta) => {
                    &&& !old(store).spec_contains(output.escrow_id@)
                    &&& fee_bps_in_range(output.max_arbiter_fee_bps)
                    &&& final(store).spec_contains(output.escrow_id@)
                    &&& final(store).spec_get(output.escrow_id@)@ == output_contract(
                        *output,
                        created_at,
                    )
                    &&& forall|x: Seq<char>|
                        x != output.escrow_id@ ==> (final(store).spec_contains(x) <==> old(
                            store,
                        ).spec_contains(x))
                    &&& forall|x: Seq<char>|
                        x != output.escrow_id@ && old(store).spec_contains(x)
                            ==> final(store).spec_get(x) == old(store).spec_get(x)
                    &&& meta.amount == output.amount
                    &&& meta.fee == self.cfg.consensus.deposit_fee
                },
                Err(e) => {
                    &&& *final(store) == *old(store)
                    &&& if old(store).spec_contains(output.escrow_id@) {
                        e == EscrowOutputError::DuplicateEscrow
                    } else {
                        !fee_bps_in_range(output.max_arbiter_fee_bps) && e
                            == EscrowOutputError::InvalidMaxArbiterFeeBps
                    }
                },
            },
    {
        if store.get(&output.escrow_id).is_some() {
            return Err(EscrowOutputError::DuplicateEscrow);
        }
        if output.max_arbiter_fee_bps < MIN_ARBITER_FEE_BPS || output.max_arbiter_fee_bps
            > MAX_ARBITER_FEE_BPS {
            return Err(EscrowOutputError::InvalidMaxArbiterFeeBps);
        }
        let max_arbiter_fee = compute_arbiter_fee(output.amount, output.max_arbiter_fee_bps);
        let key = self.get_escrow_key(output.escrow_id.clone());
        let value = EscrowValue {
            buyer_pubkey: output.buyer_pubkey.dup(),
            seller_pubkey: output.seller_pubkey.dup(),
            arbiter_pubkey: output.arbiter_pubkey.dup(),
            amount: output.amount,
            secret_code_hash: output.secret_code_hash.clone(),
            max_arbiter_fee,
            state: EscrowStates::Open,
            created_at,
        };
        proof {
            assert(value@ =~= output_contract(*output, created_at));
        }
        store.insert(key, value);
        Ok(TransactionItemAmount { amount: output.amount, fee: self.cfg.consensus.deposit_fee })
    }

    /// Applies one input to the contract it addresses: checks the guards of
    /// the addressed transition in order, rejects with the named error of
    /// the first failing guard, and otherwise stores the successor contract
    /// and reports the payout and its recipient.
    pub fn process_input(&self, store: &mut ContractStore, input: &EscrowInput) -> (r: Result<
        InputMeta,
        EscrowInputError,
    >)
        requires
            old(store).wf(),
        ensures
            final(store).wf(),
            match r {
                Ok(meta) => {
                    let id = input_escrow_id(*input);
                    let c = old(store).spec_get(id)@;
                    &&& old(store).spec_contains(id)
                    &&& input_ok(c, *input)
                    &&& forall|x: Seq<char>|
                        final(store).spec_contains(x) <==> old(store).spec_contains(x)
                    &&& final(store).spec_get(id)@ == input_next(c, *input)
                    &&& forall|x: Seq<char>|
                        x != id && old(store).spec_contains(x) ==> final(store).spec_get(x) == old(
                            store,
                        ).spec_get(x)
                    &&& meta.amount.amount.msats == input_payout(c, *input)
                    &&& meta.amount.fee.msats == 0
                    &&& meta.pub_key@ == input_recipient(c, *input)
                },
                Err(e) => {
                    let id = input_escrow_id(*input);
                    &&& *final(store) == *old(store)
                    &&& if !old(store).spec_contains(id) {
                        e == EscrowInputError::EscrowNotFound
                    } else {
                        let c = old(store).spec_get(id)@;
                        !input_ok(c, *input) && e == input_err(c, *input)
                    }
                },
            },
    {
        match input {
            EscrowInput::ClamingWithoutDispute(escrow_input) => {
                let escrow_value = match self.get_escrow_value(store, &escrow_input.escrow_id) {
                    Ok(v) => v,
                    Err(e) => { return Err(e); },
                };
                if !matches!(escrow_value.state, EscrowStates::Open) {
                    return Err(EscrowInputError::InvalidStateForClaimingEscrow);
                }
                // the claim must be signed by the seller
                if !schnorr_verify(
                    &escrow_value.seller_pubkey,
                    &escrow_input.hashed_message,
                    &escrow_input.signature,
                ) {
                    return Err(EscrowInputError::InvalidSignature);
                }
                // the secret code, hashed, must match the stored commitment
                let code_hash = hash256(escrow_input.secret_code.clone());
                if !(code_hash == escrow_value.secret_code_hash) {
                    return Err(EscrowInputError::InvalidSecretCode);
                }
                let payout = escrow_value.amount;
                let recipient = escrow_value.seller_pubkey.dup();
                let mut new_value = escrow_value.dup();
                new_value.state = EscrowStates::ResolvedWithoutDispute;
                proof {
                    assert(new_value@ =~= input_next(escrow_value@, *input));
                }
                store.update(&escrow_input.escrow_id, new_value);
                Ok(
                    InputMeta {
                        amount: TransactionItemAmount {
                            amount: payout,
                            fee: Amount { msats: 0 },
                        },
                        pub_key: recipient,
                    },
                )
            },
            EscrowInput::Disputing(escrow_input) => {
                let escrow_value = match self.get_escrow_value(store, &escrow_input.escrow_id) {
                    Ok(v) => v,
                    Err(e) => { return Err(e); },
                };
                // only the buyer or the seller may dispute
                let disputer = if escrow_input.disputer.key_eq(&escrow_value.buyer_pubkey) {
                    Disputer::Buyer
                } else if escrow_input.disputer.key_eq(&escrow_value.seller_pubkey) {
                    Disputer::Seller
                } else {
                    return Err(EscrowInputError::UnauthorizedToDispute);
                };
                // the dispute must be signed by the disputer
                if !schnorr_verify(
                    &escrow_input.disputer,
                    &escrow_input.hashed_message,
                    &escrow_input.signature,
                ) {
                    return Err(EscrowInputError::InvalidSignature);
                }
                if !matches!(escrow_value.state, EscrowStates::Open) {
                    return Err(EscrowInputError::InvalidStateForInitiatingDispute);
                }
                let recipient = escrow_input.disputer.dup();
                let mut new_value = escrow_value.dup();
                new_value.state = match disputer {
                    Disputer::Buyer => EscrowStates::DisputedByBuyer,
                    Disputer::Seller => EscrowStates::DisputedBySeller,
                };
                proof {
                    assert(new_value@ =~= input_next(escrow_value@, *input));
                }
                store.update(&escrow_input.escrow_id, new_value);
                Ok(
                    InputMeta {
                        amount: TransactionItemAmount {
                            amount: Amount { msats: 0 },
                            fee: Amount { msats: 0 },
                        },
                        pub_key: recipient,
                    },
                )
            },
            EscrowInput::ArbiterDecision(escrow_input) => {
                let escrow_value = match self.get_escrow_value(store, &escrow_input.escrow_id) {
                    Ok(v) => v,
                    Err(e) => { return Err(e); },
                };
                // the escrow must be disputed for the arbiter to decide
                if !matches!(escrow_value.state, EscrowStates::DisputedByBuyer)
                    && !matches!(escrow_value.state, EscrowStates::DisputedBySeller) {
                    return Err(EscrowInputError::EscrowNotDisputed);
                }
                // the decision must be signed by the arbiter
                if !schnorr_verify(
                    &escrow_value.arbiter_pubkey,
                    &escrow_input.hashed_message,
                    &escrow_input.signature,
                ) {
                    return Err(EscrowInputError::InvalidSignature);
                }
                // the claimed fee must stay within the contract's cap
                if escrow_input.amount.msats > escrow_value.max_arbiter_fee.msats {
                    return Err(EscrowInputError::ArbiterFeeExceedsMaximum);
                }
                let recipient = escrow_value.arbiter_pubkey.dup();
                let mut new_value = escrow_value.dup();
                new_value.amount = Amount {
                    msats: escrow_value.amount.msats - escrow_input.amount.msats,
                };
                new_value.state = match escrow_input.arbiter_decision {
                    ArbiterDecision::BuyerWins => EscrowStates::WaitingforBuyerToClaim,
                    ArbiterDecision::SellerWins => EscrowStates::WaitingforSellerToClaim,
                };
                proof {
                    assert(new_value@ =~= input_next(escrow_value@, *input));
                }
                store.update(&escrow_input.escrow_id, new_value);
                Ok(
                    InputMeta {
                        amount: TransactionItemAmount {
                            amount: escrow_input.amount,
                            fee: Amount { msats: 0 },
                        },
                        pub_key: recipient,
                    },
                )
            },
            EscrowInput::ClaimingAfterDispute(escrow_input) => {
                let escrow_value = match self.get_escrow_value(store, &escrow_input.escrow_id) {
                    Ok(v) => v,
                    Err(e) => { return Err(e); },
                };
                // the winner designated by the arbiter claims with their key
                let winner = match escrow_value.state {
                    EscrowStates::WaitingforBuyerToClaim => &escrow_value.buyer_pubkey,
                    EscrowStates::WaitingforSellerToClaim => &escrow_value.seller_pubkey,
                    _ => { return Err(EscrowInputError::InvalidStateForClaimingEscrow); },
                };
                if !schnorr_verify(winner, &escrow_input.hashed_message, &escrow_input.signature) {
                    return Err(EscrowInputError::InvalidSignature);
                }
                let payout = escrow_value.amount;
                let recipient = winner.dup();
                let mut new_value = escrow_value.dup();
                new_value.state = EscrowStates::ResolvedWithDispute;
                proof {
                    assert(new_value@ =~= input_next(escrow_value@, *input));
                }
                store.update(&escrow_input.escrow_id, new_value);
                Ok(
                    InputMeta {
                        amount: TransactionItemAmount {
                            amount: payout,
                            fee: Amount { msats: 0 },
                        },
                        pub_key: recipient,
                    },
                )
            },
        }
    }
}

} // verus!
