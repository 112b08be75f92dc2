//! The contract store: the persisted mapping from escrow id to contract.
//! The surrounding key-value store is external; this module models the
//! read-modify-write window the state machine sees within one consensus
//! batch, with at most one contract per escrow id.

use vstd::prelude::*;

use crate::common::{Amount, EscrowStates, PublicKey};

verus! {

/// The prefix namespace of this module's records in the guardian store.
#[derive(Clone, Copy, Debug)]
pub enum DbKeyPrefix {
    Escrow,
}

/// The key of one contract record: the escrow id chosen by the buyer.
#[derive(Debug)]
pub struct EscrowKey {
    pub escrow_id: String,
}

/// One persisted escrow contract. Created by the first output under its id,
/// mutated only by subsequent inputs, never physically removed: terminal
/// states record the outcome.
#[derive(Debug)]
pub struct EscrowValue {
    pub buyer_pubkey: PublicKey,
    pub seller_pubkey: PublicKey,
    pub arbiter_pubkey: PublicKey,
    pub amount: Amount,
    pub secret_code_hash: String,
    pub max_arbiter_fee: Amount,
    pub state: EscrowStates,
    pub created_at: u64,
}

/// The mathematical model of one contract: keys as byte sequences, the
/// commitment as its hex characters, amounts in millisatoshis.
#[verifier::ext_equal]
pub struct EscrowValueView {
    pub buyer_pubkey: Seq<u8>,
    pub seller_pubkey: Seq<u8>,
    pub arbiter_pubkey: Seq<u8>,
    pub amount_msats: u64,
    pub secret_code_hash: Seq<char>,
    pub max_arbiter_fee_msats: u64,
    pub state: EscrowStates,
    pub created_at: u64,
}

impl View for EscrowValue {
    type V = EscrowValueView;

    open spec fn view(&self) -> EscrowValueView {
        EscrowValueView {
            buyer_pubkey: self.buyer_pubkey@,
            seller_pubkey: self.seller_pubkey@,
            arbiter_pubkey: self.arbiter_pubkey@,
            amount_msats: self.amount.msats,
            secret_code_hash: self.secret_code_hash@,
            max_arbiter_fee_msats: self.max_arbiter_fee.msats,
            state: self.state,
            created_at: self.created_at,
        }
    }
}

impl EscrowValueView {
    /// While a fee can still be taken (the contract is open or disputed),
    /// the fee cap does not exceed the locked amount, so deducting a fee
    /// within the cap can never underflow.
    pub open spec fn inv(self) -> bool {
        (self.state == EscrowStates::Open || self.state == EscrowStates::DisputedByBuyer
            || self.state == EscrowStates::DisputedBySeller) ==> self.max_arbiter_fee_msats
            <= self.amount_msats
    }
}

impl EscrowValue {
    /// An owned copy of this contract record.
    pub fn dup(&self) -> (r: EscrowValue)
        ensures
            r@ == self@,
    {
        let r = EscrowValue {
            buyer_pubkey: self.buyer_pubkey.dup(),
            seller_pubkey: self.seller_pubkey.dup(),
            arbiter_pubkey: self.arbiter_pubkey.dup(),
            amount: self.amount,
            secret_code_hash: self.secret_code_hash.clone(),
            max_arbiter_fee: self.max_arbiter_fee,
            state: self.state,
            created_at: self.created_at,
        };
        assert(r@ =~= self@);
        r
    }
}

/// The contracts a guardian holds, at most one per escrow id.
pub struct ContractStore {
    entries: Vec<(EscrowKey, EscrowValue)>,
}

impl ContractStore {
    /// At most one entry per escrow id, and every stored contract satisfies
    /// its fee-cap invariant. Established by `new`, preserved by every
    /// mutation.
    pub closed spec fn wf(self) -> bool {
        &&& forall|i: int, j: int|
            0 <= i < self.entries@.len() && 0 <= j < self.entries@.len() && i != j
                ==> #[trigger] self.entries@[i].0.escrow_id@
                != #[trigger] self.entries@[j].0.escrow_id@
        &&& forall|i: int|
            0 <= i < self.entries@.len() ==> (#[trigger] self.entries@[i].1)@.inv()
    }

    /// Whether a contract exists under the given escrow id.
    pub closed spec fn spec_contains(self, id: Seq<char>) -> bool {
        exists|i: int|
            0 <= i < self.entries@.len() && (#[trigger] self.entries@[i]).0.escrow_id@ == id
    }

    /// The position of the contract stored under the given escrow id.
    closed spec fn spec_index_of(self, id: Seq<char>) -> int {
        choose|i: int|
            0 <= i < self.entries@.len() && (#[trigger] self.entries@[i]).0.escrow_id@ == id
    }

    /// The contract stored under the given escrow id.
    pub closed spec fn spec_get(self, id: Seq<char>) -> EscrowValue {
        self.entries@[self.spec_index_of(id)].1
    }

    /// The escrow ids stored, in insertion order.
    pub closed spec fn spec_ids(self) -> Seq<Seq<char>> {
        self.entries@.map(|i: int, e: (EscrowKey, EscrowValue)| e.0.escrow_id@)
    }

    /// Uniqueness: a well-formed store holds at most one contract per
    /// escrow id — distinct entries always carry distinct ids.
    pub proof fn lemma_unique_ids(self, i: int, j: int)
        requires
            self.wf(),
            0 <= i < self.spec_ids().len(),
            0 <= j < self.spec_ids().len(),
            i != j,
        ensures
            self.spec_ids()[i] != self.spec_ids()[j],
    {
        assert(self.spec_ids()[i] == self.entries@[i].0.escrow_id@);
        assert(self.spec_ids()[j] == self.entries@[j].0.escrow_id@);
    }

    /// With unique ids, any position whose entry carries `id` is the
    /// position `spec_get` reads from.
    proof fn lemma_at_index(self, id: Seq<char>, i: int)
        requires
            self.wf(),
            0 <= i < self.entries@.len(),
            self.entries@[i].0.escrow_id@ == id,
        ensures
            self.spec_contains(id),
            self.spec_index_of(id) == i,
            self.spec_get(id) == self.entries@[i].1,
    {
        assert(self.spec_contains(id));
        let k = self.spec_index_of(id);
        assert(0 <= k < self.entries@.len() && self.entries@[k].0.escrow_id@ == id);
        if k != i {
            assert(self.entries@[i].0.escrow_id@ != self.entries@[k].0.escrow_id@);
        }
    }

    /// An empty store.
    pub fn new() -> (r: ContractStore)
        ensures
            r.wf(),
            forall|x: Seq<char>| !r.spec_contains(x),
    {
        ContractStore { entries: Vec::new() }
    }

    /// Looks a contract up by its escrow id.
    pub fn get<'a>(&'a self, escrow_id: &String) -> (r: Option<&'a EscrowValue>)
        requires
            self.wf(),
        ensures
            r is Some <==> self.spec_contains(escrow_id@),
            r matches Some(v) ==> *v == self.spec_get(escrow_id@) && v@.inv(),
    {
        let n = self.entries.len();
        let mut i: usize = 0;
        while i < n
            invariant
                n == self.entries@.len(),
                0 <= i <= n,
                self.wf(),
                forall|j: int|
                    0 <= j < i ==> (#[trigger] self.entries@[j]).0.escrow_id@ != escrow_id@,
            decreases n - i,
        {
            if self.entries[i].0.escrow_id == *escrow_id {
                proof {
                    self.lemma_at_index(escrow_id@, i as int);
                }
                return Some(&self.entries[i].1);
            }
            i += 1;
        }
        proof {
            if self.spec_contains(escrow_id@) {
                let k = self.spec_index_of(escrow_id@);
                assert(self.entries@[k].0.escrow_id@ != escrow_id@);
            }
        }
        None
    }

    /// Stores a new contract under an id that is not yet taken.
    pub fn insert(&mut self, key: EscrowKey, value: EscrowValue)
        requires
            old(self).wf(),
            !old(self).spec_contains(key.escrow_id@),
            value@.inv(),
        ensures
            final(self).wf(),
            final(self).spec_contains(key.escrow_id@),
            final(self).spec_get(key.escrow_id@) == value,
            forall|x: Seq<char>|
                x != key.escrow_id@ ==> (final(self).spec_contains(x) <==> old(
                    self,
                ).spec_contains(x)),
            forall|x: Seq<char>|
                x != key.escrow_id@ && old(self).spec_contains(x) ==> final(self).spec_get(x)
                    == old(self).spec_get(x),
    {
        let ghost pre = *self;
        let ghost id = key.escrow_id@;
        self.entries.push((key, value));
        proof {
            let n = pre.entries@.len() as int;
            assert(self.entries@ =~= pre.entries@.push((key, value)));
            assert forall|i: int| 0 <= i < n implies self.entries@[i] == pre.entries@[i] by {}
            // no old entry carries the new id
            assert forall|i: int| 0 <= i < n implies self.entries@[i].0.escrow_id@ != id by {
                if pre.entries@[i].0.escrow_id@ == id {
                    pre.lemma_at_index(id, i);
                }
            }
            assert(self.wf());
            self.lemma_at_index(id, n);
            assert forall|x: Seq<char>| x != id && pre.spec_contains(x) implies {
                &&& self.spec_contains(x)
                &&& self.spec_get(x) == pre.spec_get(x)
            } by {
                let k = pre.spec_index_of(x);
                assert(pre.entries@[k].0.escrow_id@ == x);
                self.lemma_at_index(x, k);
                pre.lemma_at_index(x, k);
            }
            assert forall|x: Seq<char>| x != id && self.spec_contains(x) implies pre.spec_contains(
                x,
            ) by {
                let k = self.spec_index_of(x);
                assert(self.entries@[k].0.escrow_id@ == x);
                assert(k != n);
                assert(pre.entries@[k].0.escrow_id@ == x);
            }
        }
    }

    /// Replaces the contract stored under an existing escrow id.
    #[verifier::loop_isolation(false)]
    pub fn update(&mut self, escrow_id: &String, value: EscrowValue)
        requires
            old(self).wf(),
            old(self).spec_contains(escrow_id@),
            value@.inv(),
        ensures
            final(self).wf(),
            forall|x: Seq<char>|
                final(self).spec_contains(x) <==> old(self).spec_contains(x),
            final(self).spec_get(escrow_id@) == value,
            forall|x: Seq<char>|
                x != escrow_id@ && old(self).spec_contains(x) ==> final(self).spec_get(x) == old(
                    self,
                ).spec_get(x),
    {
        let ghost pre = *self;
        let ghost id = escrow_id@;
        let n = self.entries.len();
        let mut i: usize = 0;
        while i < n
            invariant
                *self == pre,
                n == self.entries@.len(),
                0 <= i <= n,
                self.wf(),
                self.spec_contains(id),
                id == escrow_id@,
                forall|j: int|
                    0 <= j < i ==> (#[trigger] self.entries@[j]).0.escrow_id@ != id,
            decreases n - i,
        {
            if self.entries[i].0.escrow_id == *escrow_id {
                proof {
                    self.lemma_at_index(id, i as int);
                }
                let new_key = EscrowKey { escrow_id: self.entries[i].0.escrow_id.clone() };
                self.entries.set(i, (new_key, value));
                proof {
                    assert(self.entries@ == pre.entries@.update(i as int, (new_key, value)));
                    assert forall|j: int| 0 <= j < n && j != i implies #[trigger] self.entries@[j]
                        == pre.entries@[j] by {}
                    assert forall|j: int| 0 <= j < n implies (#[trigger] self.entries@[j]).0.escrow_id@
                        == pre.entries@[j].0.escrow_id@ by {}
                    assert(self.entries@[i as int].1 == value);
                    assert forall|j: int| 0 <= j < n implies (#[trigger] self.entries@[j]).1@.inv() by {
                        if j != i {
                            assert(self.entries@[j].1 == pre.entries@[j].1);
                            assert(pre.entries@[j].1@.inv());
                        }
                    }
                    assert(self.wf());
                    self.lemma_at_index(id, i as int);
                    assert forall|x: Seq<char>| self.spec_contains(x) implies pre.spec_contains(
                        x,
                    ) by {
                        let k = self.spec_index_of(x);
                        assert(self.entries@[k].0.escrow_id@ == x);
                        assert(pre.entries@[k].0.escrow_id@ == x);
                    }
                    assert forall|x: Seq<char>| pre.spec_contains(x) implies self.spec_contains(
                        x,
                    ) by {
                        let k = pre.spec_index_of(x);
                        assert(pre.entries@[k].0.escrow_id@ == x);
                        assert(self.entries@[k].0.escrow_id@ == x);
                    }
                    assert forall|x: Seq<char>| x != id && pre.spec_contains(x) implies self.spec_get(
                        x,
                    ) == pre.spec_get(x) by {
                        let k = pre.spec_index_of(x);
                        assert(pre.entries@[k].0.escrow_id@ == x);
                        pre.lemma_at_index(x, k);
                        assert(k != i);
                        self.lemma_at_index(x, k);
                    }
                }
                return ;
            }
            i += 1;
        }
        proof {
            let k = self.spec_index_of(id);
            assert(self.entries@[k].0.escrow_id@ == id);
            assert(false);
        }
    }
}

} // verus!
