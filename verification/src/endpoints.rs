//! The query surface of the module. The contract summary returned to
//! clients never includes the secret code commitment.

use vstd::prelude::*;

use crate::common::{Amount, EscrowStates, PublicKey};

verus! {

/// The name of the query endpoint serving contract summaries.
pub const GET_MODULE_INFO: &'static str = "get_module_info";

/// The answer to a contract query: everything a party needs to act on the
/// escrow. The secret code commitment is deliberately absent.
#[derive(Debug)]
pub struct EscrowInfo {
    pub buyer_pubkey: PublicKey,
    pub seller_pubkey: PublicKey,
    pub arbiter_pubkey: PublicKey,
    pub amount: Amount,
    pub state: EscrowStates,
    pub max_arbiter_fee: Amount,
}

} // verus!
