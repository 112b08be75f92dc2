//! Types shared by the guardian (server) side and the client side:
//! amounts, keys, instructions and the named errors of every guard clause.

use vstd::prelude::*;

verus! {

/// A quantity of e-cash in millisatoshis. Amounts are opaque conserved
/// quantities: the module never creates or destroys value outside the
/// declared input/output amounts of a transaction.
#[derive(Clone, Copy, Debug, PartialEq, Eq, Structural)]
pub struct Amount {
    pub msats: u64,
}

/// A compressed secp256k1 verification key, carried as its serialized bytes.
/// The module compares keys byte for byte and hands them to the signature
/// verifier; it never looks inside.
#[derive(Debug)]
pub struct PublicKey {
    pub bytes: Vec<u8>,
}

impl View for PublicKey {
    type V = Seq<u8>;

    open spec fn view(&self) -> Seq<u8> {
        self.bytes@
    }
}

impl PublicKey {
    /// Byte-for-byte equality of two keys.
    pub fn key_eq(&self, other: &PublicKey) -> (r: bool)
        ensures
            r == (self@ == other@),
    {
        bytes_eq(&self.bytes, &other.bytes)
    }

    /// An owned copy of this key.
    pub fn dup(&self) -> (r: PublicKey)
        ensures
            r@ == self@,
    {
        PublicKey { bytes: bytes_dup(&self.bytes) }
    }
}

/// A BIP340 Schnorr signature, carried as its 64 serialized bytes.
#[derive(Debug)]
pub struct Signature {
    pub bytes: Vec<u8>,
}

impl View for Signature {
    type V = Seq<u8>;

    open spec fn view(&self) -> Seq<u8> {
        self.bytes@
    }
}

impl Signature {
    /// An owned copy of this signature.
    pub fn dup(&self) -> (r: Signature)
        ensures
            r@ == self@,
    {
        Signature { bytes: bytes_dup(&self.bytes) }
    }
}

/// A secp256k1 secret key, carried as its 32 serialized bytes.
#[derive(Debug)]
pub struct SecretKey {
    pub bytes: Vec<u8>,
}

impl View for SecretKey {
    type V = Seq<u8>;

    open spec fn view(&self) -> Seq<u8> {
        self.bytes@
    }
}

/// Byte-for-byte comparison of two byte vectors.
pub fn bytes_eq(a: &Vec<u8>, b: &Vec<u8>) -> (r: bool)
    ensures
        r == (a@ == b@),
{
    if a.len() != b.len() {
        assert(a@.len() != b@.len());
        return false;
    }
    let n = a.len();
    let mut i: usize = 0;
    while i < n
        invariant
            n == a@.len(),
            n == b@.len(),
            0 <= i <= n,
            forall|j: int| 0 <= j < i ==> a@[j] == b@[j],
        decreases n - i,
    {
        if a[i] != b[i] {
            return false;
        }
        i += 1;
    }
    assert(a@ =~= b@);
    true
}

/// An owned copy of a byte vector.
pub fn bytes_dup(a: &Vec<u8>) -> (r: Vec<u8>)
    ensures
        r@ == a@,
{
    let n = a.len();
    let mut r: Vec<u8> = Vec::new();
    let mut i: usize = 0;
    while i < n
        invariant
            n == a@.len(),
            0 <= i <= n,
            r@ == a@.subrange(0, i as int),
        decreases n - i,
    {
        r.push(a[i]);
        assert(r@ =~= a@.subrange(0, i + 1 as int));
        i += 1;
    }
    assert(r@ =~= a@);
    r
}

/// The lifecycle states of an escrow contract. `ResolvedWithoutDispute` and
/// `ResolvedWithDispute` are terminal.
#[derive(Clone, Copy, Debug, PartialEq, Eq, Structural)]
pub enum EscrowStates {
    /// The escrow is created and not yet claimed or disputed.
    Open,
    /// The seller claimed the escrow with the secret code; terminal.
    ResolvedWithoutDispute,
    /// The winner of a dispute claimed the escrow; terminal.
    ResolvedWithDispute,
    /// The buyer has disputed the escrow.
    DisputedByBuyer,
    /// The seller has disputed the escrow.
    DisputedBySeller,
    /// The arbiter decided for the buyer, who still has to claim.
    WaitingforBuyerToClaim,
    /// The arbiter decided for the seller, who still has to claim.
    WaitingforSellerToClaim,
}

/// The party that initiated a dispute.
#[derive(Clone, Copy, Debug, PartialEq, Eq, Structural)]
pub enum Disputer {
    Buyer,
    Seller,
}

/// The arbiter's outcome on a disputed escrow.
#[derive(Clone, Copy, Debug, PartialEq, Eq, Structural)]
pub enum ArbiterDecision {
    BuyerWins,
    SellerWins,
}

/// The seller claims an open escrow by revealing the secret code.
#[derive(Debug)]
pub struct EscrowInputClamingWithoutDispute {
    pub amount: Amount,
    pub escrow_id: String,
    pub secret_code: String,
    pub hashed_message: Vec<u8>,
    pub signature: Signature,
}

/// The buyer or the seller disputes an open escrow.
#[derive(Debug)]
pub struct EscrowInputDisputing {
    pub escrow_id: String,
    pub disputer: PublicKey,
    pub hashed_message: Vec<u8>,
    pub signature: Signature,
}

/// The winner designated by the arbiter claims the remaining value.
#[derive(Debug)]
pub struct EscrowInputClaimingAfterDispute {
    pub amount: Amount,
    pub escrow_id: String,
    pub hashed_message: Vec<u8>,
    pub signature: Signature,
}

/// The arbiter decides a disputed escrow and claims a fee within the cap.
#[derive(Debug)]
pub struct EscrowInputArbiterDecision {
    pub amount: Amount,
    pub escrow_id: String,
    pub arbiter_decision: ArbiterDecision,
    pub hashed_message: Vec<u8>,
    pub signature: Signature,
}

/// A consensus-checked instruction that consumes or redirects escrowed value.
#[derive(Debug)]
pub enum EscrowInput {
    /// The seller claims the escrow without any dispute.
    ClamingWithoutDispute(EscrowInputClamingWithoutDispute),
    /// The buyer or seller disputes the escrow.
    Disputing(EscrowInputDisputing),
    /// The buyer or seller claims the escrow after the dispute was decided.
    ClaimingAfterDispute(EscrowInputClaimingAfterDispute),
    /// The arbiter decides who won the dispute.
    ArbiterDecision(EscrowInputArbiterDecision),
}

/// A consensus-checked instruction that creates a new escrow contract and
/// locks the buyer's value in it.
#[derive(Debug)]
pub struct EscrowOutput {
    pub amount: Amount,
    pub buyer_pubkey: PublicKey,
    pub seller_pubkey: PublicKey,
    pub arbiter_pubkey: PublicKey,
    pub escrow_id: String,
    pub secret_code_hash: String,
    pub max_arbiter_fee_bps: u16,
}

/// The named error of each guard clause of the input side of the state
/// machine. Every rejected (state, instruction) pair maps to exactly one of
/// these; nothing is silently ignored.
#[derive(Clone, Copy, Debug, PartialEq, Eq, Structural)]
pub enum EscrowInputError {
    /// The revealed secret code does not hash to the stored commitment.
    InvalidSecretCode,
    /// The arbiter tried to decide an escrow that is not disputed.
    EscrowNotDisputed,
    /// A dispute was raised on an escrow that is not open.
    InvalidStateForInitiatingDispute,
    /// A claim was made in a state that does not allow it.
    InvalidStateForClaimingEscrow,
    /// The disputer is neither the buyer nor the seller.
    UnauthorizedToDispute,
    /// The signature does not verify under the authorized key.
    InvalidSignature,
    /// No contract exists under the given escrow id.
    EscrowNotFound,
    /// The arbiter's fee claim exceeds the contract's cap.
    ArbiterFeeExceedsMaximum,
}

impl EscrowInputError {
    /// A human-readable description of the error.
    pub fn message(&self) -> String {
        match self {
            EscrowInputError::InvalidSecretCode => "Invalid secret code".to_owned(),
            EscrowInputError::EscrowNotDisputed => "Escrow is not disputed, thus arbiter cannot decide the ecash to be given to buyer or seller".to_owned(),
            EscrowInputError::InvalidStateForInitiatingDispute => "Invalid state for initiating dispute".to_owned(),
            EscrowInputError::InvalidStateForClaimingEscrow => "Invalid state for claiming escrow".to_owned(),
            EscrowInputError::UnauthorizedToDispute => "Unauthorized to dispute this escrow".to_owned(),
            EscrowInputError::InvalidSignature => "Invalid signature".to_owned(),
            EscrowInputError::EscrowNotFound => "Escrow not found".to_owned(),
            EscrowInputError::ArbiterFeeExceedsMaximum => "Arbiter fee exceeds the maximum allowed".to_owned(),
        }
    }
}

/// The named errors of the output side of the state machine.
#[derive(Clone, Copy, Debug, PartialEq, Eq, Structural)]
pub enum EscrowOutputError {
    /// A contract with the given escrow id already exists.
    DuplicateEscrow,
    /// The arbiter fee cap is outside the allowed basis-point range.
    InvalidMaxArbiterFeeBps,
}

impl EscrowOutputError {
    /// A human-readable description of the error.
    pub fn message(&self) -> String {
        match self {
            EscrowOutputError::DuplicateEscrow => "An escrow with this id already exists".to_owned(),
            EscrowOutputError::InvalidMaxArbiterFeeBps => "Invalid max arbiter fee in bps, it should be in range 10 to 1000".to_owned(),
        }
    }
}

/// The client-side errors of the escrow module: local precondition failures
/// and the federation's rejection of a submitted transaction.
#[derive(Clone, Copy, Debug, PartialEq, Eq, Structural)]
pub enum EscrowError {
    /// The escrow is disputed and cannot be claimed with the secret code.
    EscrowDisputed,
    /// The arbiter has not yet designated a winner.
    ArbiterNotDecided,
    /// The arbiter's decision must name either the buyer or the seller.
    InvalidArbiterDecision,
    /// The federation rejected the submitted transaction.
    TransactionRejected,
    /// No contract exists under the given escrow id.
    EscrowNotFound,
    /// The arbiter fee cap is outside the allowed basis-point range.
    InvalidMaxArbiterFeeBps,
    /// The caller's secret key bytes are not a valid secp256k1 key.
    InvalidSecretKey,
}

impl EscrowError {
    /// A human-readable description of the error.
    pub fn message(&self) -> String {
        match self {
            EscrowError::EscrowDisputed => "Escrow is disputed and cannot be claimed".to_owned(),
            EscrowError::ArbiterNotDecided => "Arbiter has not decided the ecash to be given to buyer or seller yet!".to_owned(),
            EscrowError::InvalidArbiterDecision => "Invalid arbiter decision, either the winner can be the buyer or the seller".to_owned(),
            EscrowError::TransactionRejected => "Transaction was rejected".to_owned(),
            EscrowError::EscrowNotFound => "Escrow not found".to_owned(),
            EscrowError::InvalidMaxArbiterFeeBps => "Invalid max arbiter fee in bps, it should be in range 10 to 1000".to_owned(),
            EscrowError::InvalidSecretKey => "Invalid secret key".to_owned(),
        }
    }
}

/// The declared monetary value of one instruction inside the surrounding
/// transaction: the amount it moves and the fee the federation levies on it.
#[derive(Clone, Copy, Debug, PartialEq, Eq, Structural)]
pub struct TransactionItemAmount {
    pub amount: Amount,
    pub fee: Amount,
}

/// What one accepted input pays out and to whom.
#[derive(Debug)]
pub struct InputMeta {
    pub amount: TransactionItemAmount,
    pub pub_key: PublicKey,
}

/// Non-transaction items submitted to consensus. The escrow module proposes
/// none: the federation transaction is the only thing guardians agree on.
#[derive(Clone, Copy, Debug, PartialEq, Eq, Structural)]
pub struct EscrowConsensusItem;

/// Marker tying together the instruction, error and config types of this
/// module.
pub struct EscrowModuleTypes;

/// The common initializer for the escrow module.
#[derive(Debug)]
pub struct EscrowCommonInit;

} // verus!
