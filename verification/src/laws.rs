//! Proved properties of the escrow automaton, stated over the spec model
//! that `process_input` and `process_output` are verified against:
//! conservation of locked value, authorization of every transition, and
//! rejection of replayed instructions.

use vstd::prelude::*;

use crate::common::{EscrowInput, EscrowOutput, EscrowStates};
use crate::config::{fee_bps_in_range, lemma_arbiter_fee_le_amount};
use crate::crypto::schnorr_verifies;
use crate::db::EscrowValueView;
use crate::server::{input_next, input_ok, output_contract};

verus! {

/// The message bytes an input is signed over.
pub open spec fn input_message(input: EscrowInput) -> Seq<u8> {
    match input {
        EscrowInput::ClamingWithoutDispute(i) => i.hashed_message@,
        EscrowInput::Disputing(i) => i.hashed_message@,
        EscrowInput::ClaimingAfterDispute(i) => i.hashed_message@,
        EscrowInput::ArbiterDecision(i) => i.hashed_message@,
    }
}

/// The signature an input carries.
pub open spec fn input_signature(input: EscrowInput) -> Seq<u8> {
    match input {
        EscrowInput::ClamingWithoutDispute(i) => i.signature@,
        EscrowInput::Disputing(i) => i.signature@,
        EscrowInput::ClaimingAfterDispute(i) => i.signature@,
        EscrowInput::ArbiterDecision(i) => i.signature@,
    }
}

/// The one key that may authorize an input against the current contract:
/// the seller for a claim without dispute, the disputer (who must be buyer
/// or seller) for a dispute, the designated winner for a claim after
/// dispute, the arbiter for a decision.
pub open spec fn authorized_key(c: EscrowValueView, input: EscrowInput) -> Seq<u8> {
    match input {
        EscrowInput::ClamingWithoutDispute(i) => c.seller_pubkey,
        EscrowInput::Disputing(i) => i.disputer@,
        EscrowInput::ClaimingAfterDispute(i) => if c.state
            == EscrowStates::WaitingforBuyerToClaim {
            c.buyer_pubkey
        } else {
            c.seller_pubkey
        },
        EscrowInput::ArbiterDecision(i) => c.arbiter_pubkey,
    }
}

/// Authorization: an input is accepted only when its signature verifies
/// under the exact key authorized for the current state; a dispute is
/// accepted only from the buyer or the seller. Contrapositively, an input
/// whose signature does not verify under that key — however valid under
/// any other key — is rejected.
pub proof fn lemma_authorization(c: EscrowValueView, input: EscrowInput)
    requires
        input_ok(c, input),
    ensures
        schnorr_verifies(authorized_key(c, input), input_message(input), input_signature(input)),
        input matches EscrowInput::Disputing(i) ==> i.disputer@ == c.buyer_pubkey || i.disputer@
            == c.seller_pubkey,
{
}

/// Idempotence: replaying an input that was just accepted is rejected,
/// because no transition leads back to the state its guard requires. In
/// particular no claim, and no arbiter fee, can be paid twice.
pub proof fn lemma_idempotence(c: EscrowValueView, input: EscrowInput)
    requires
        input_ok(c, input),
    ensures
        !input_ok(input_next(c, input), input),
{
}

/// The arbiter fee one accepted input pays out of the contract: zero for
/// everything but an accepted arbiter decision.
pub open spec fn step_fee(c: EscrowValueView, input: EscrowInput) -> int {
    if input_ok(c, input) {
        match input {
            EscrowInput::ArbiterDecision(i) => i.amount.msats as int,
            _ => 0,
        }
    } else {
        0
    }
}

/// One step conserves value: an accepted input leaves a contract that
/// still satisfies its fee-cap invariant, and the remaining amount plus
/// the fee this step paid out equals the amount before. In particular the
/// locked amount only ever decreases.
pub proof fn lemma_step_conservation(c: EscrowValueView, input: EscrowInput)
    requires
        c.inv(),
        input_ok(c, input),
    ensures
        input_next(c, input).inv(),
        input_next(c, input).amount_msats + step_fee(c, input) == c.amount_msats,
        input_next(c, input).amount_msats <= c.amount_msats,
{
}

/// The contract reached from `c` by a sequence of inputs, each applied
/// only if the automaton accepts it in the state reached so far — rejected
/// instructions leave the state unchanged, exactly as a guardian applies a
/// consensus batch.
pub open spec fn run(c: EscrowValueView, inputs: Seq<EscrowInput>) -> EscrowValueView
    decreases inputs.len(),
{
    if inputs.len() == 0 {
        c
    } else {
        let c1 = if input_ok(c, inputs.first()) {
            input_next(c, inputs.first())
        } else {
            c
        };
        run(c1, inputs.drop_first())
    }
}

/// The total arbiter fees paid out along a run.
pub open spec fn fees_paid(c: EscrowValueView, inputs: Seq<EscrowInput>) -> int
    decreases inputs.len(),
{
    if inputs.len() == 0 {
        0
    } else {
        let c1 = if input_ok(c, inputs.first()) {
            input_next(c, inputs.first())
        } else {
            c
        };
        step_fee(c, inputs.first()) + fees_paid(c1, inputs.drop_first())
    }
}

/// Conservation: in every state reachable from a well-formed contract, the
/// remaining amount plus the sum of all fees paid out equals the amount
/// the contract started with. Value is neither created nor destroyed
/// outside authorized transitions.
pub proof fn lemma_conservation(c: EscrowValueView, inputs: Seq<EscrowInput>)
    requires
        c.inv(),
    ensures
        run(c, inputs).inv(),
        run(c, inputs).amount_msats + fees_paid(c, inputs) == c.amount_msats,
    decreases inputs.len(),
{
    if inputs.len() == 0 {
    } else {
        let first = inputs.first();
        if input_ok(c, first) {
            lemma_step_conservation(c, first);
            lemma_conservation(input_next(c, first), inputs.drop_first());
        } else {
            lemma_conservation(c, inputs.drop_first());
        }
    }
}

/// Conservation from creation: a freshly created contract locks exactly
/// the output's amount, is well formed, and every run from it accounts for
/// that amount exactly. Together with the deposit fee the creation itself
/// declares, the buyer's debit is the locked amount plus the deposit fee.
pub proof fn lemma_conservation_from_creation(
    output: EscrowOutput,
    created_at: u64,
    inputs: Seq<EscrowInput>,
)
    requires
        fee_bps_in_range(output.max_arbiter_fee_bps),
    ensures
        output_contract(output, created_at).amount_msats == output.amount.msats,
        run(output_contract(output, created_at), inputs).amount_msats + fees_paid(
            output_contract(output, created_at),
            inputs,
        ) == output.amount.msats,
{
    lemma_arbiter_fee_le_amount(output.amount.msats, output.max_arbiter_fee_bps);
    lemma_conservation(output_contract(output, created_at), inputs);
}

} // verus!
