//! Blocks: a payload, an ordered transaction list summarized by a Merkle
//! root, a link to the previous block, and a proof-of-work nonce search.

use crate::clock::current_time_micros;
use crate::decimal::{dec_str, push_decimal};
use crate::digest::{has_leading_zeros, leading_zeros, sha256_hex, sha256_hex_of};
use crate::merkle_tree::{merkle_root, tx_hashes, MerkleTreeNode};
use crate::transaction::Transaction;
use vstd::prelude::*;
use vstd::string::StringExecFns;

verus! {

/// The payload a block carries: a free-form message.
#[derive(Debug)]
pub struct BlockData {
    pub message: String,
}

impl BlockData {
    pub fn new(message: String) -> (d: BlockData)
        ensures
            d.message == message,
    {
        BlockData { message }
    }
}

/// A block of the chain. The stored `hash` is a derived field: for a
/// finalized block it must equal the digest of the other content, which
/// `calculate_hash` recomputes and `chain::chain_valid` re-checks.
#[derive(Debug)]
pub struct Block {
    pub data: BlockData,
    pub transactions: Vec<Transaction>,
    pub hash: String,
    pub prev_hash: String,
    pub timestamp: u128,
    pub nonce: u128,
    pub transaction_merkle_tree: Option<MerkleTreeNode>,
}

/// The text a stored Merkle tree contributes to the block digest: the root
/// hash if a tree is present, empty text otherwise.
pub open spec fn spec_root_text(tree: Option<MerkleTreeNode>) -> Seq<char> {
    match tree {
        Some(n) => n.hash@,
        None => Seq::empty(),
    }
}

/// The text whose digest is a block's hash, with `n` standing in place of
/// the stored nonce: previous hash, decimal timestamp, payload message,
/// decimal nonce, and the Merkle root text, concatenated in that fixed
/// order.
pub open spec fn spec_block_input_at(b: Block, n: u128) -> Seq<char> {
    b.prev_hash@ + dec_str(b.timestamp as nat) + b.data.message@ + dec_str(n as nat)
        + spec_root_text(b.transaction_merkle_tree)
}

/// The text whose digest is a block's hash, at the block's own nonce.
pub open spec fn spec_block_input(b: Block) -> Seq<char> {
    spec_block_input_at(b, b.nonce)
}

/// The block invariant on the derived field: the stored hash is the digest
/// of the block's current content.
pub open spec fn block_hash_ok(b: Block) -> bool {
    b.hash@ == sha256_hex_of(spec_block_input(b))
}

/// The stored Merkle tree summarizes exactly the block's transaction list:
/// absent for an empty list, otherwise a well-formed tree whose root is the
/// Merkle root of the transactions' hashes in order.
pub open spec fn block_tree_ok(b: Block) -> bool {
    match b.transaction_merkle_tree {
        None => b.transactions@.len() == 0,
        Some(t) => b.transactions@.len() > 0 && t.well_formed() && t.hash@ == merkle_root(
            tx_hashes(b.transactions@),
        ),
    }
}

impl Block {
    /// Creates an unmined block: current wall-clock timestamp, nonce zero,
    /// no transactions, no Merkle tree yet, and a stored hash that already
    /// reflects that initial content.
    pub fn new(data: BlockData, prev_hash: String) -> (b: Block)
        ensures
            b.data == data,
            b.prev_hash == prev_hash,
            b.transactions@.len() == 0,
            b.nonce == 0,
            b.transaction_merkle_tree is None,
            block_hash_ok(b),
    {
        let timestamp = current_time_micros();
        let mut b = Block {
            data,
            transactions: Vec::new(),
            hash: String::new(),
            prev_hash,
            timestamp,
            nonce: 0,
            transaction_merkle_tree: None,
        };
        let h = b.calculate_hash();
        b.hash = h;
        b
    }

    /// Recomputes the digest of the block's current content; any caller
    /// needing a fresh digest calls this rather than reading the stored
    /// field.
    pub fn calculate_hash(&self) -> (r: String)
        ensures
            r@ == sha256_hex_of(spec_block_input(*self)),
            r@.len() == 64,
    {
        let mut data = String::new();
        data.append(self.prev_hash.as_str());
        push_decimal(&mut data, self.timestamp);
        data.append(self.data.message.as_str());
        push_decimal(&mut data, self.nonce);
        match &self.transaction_merkle_tree {
            Some(t) => data.append(t.hash.as_str()),
            None => (),
        }
        proof {
            assert(data@ =~= spec_block_input(*self));
        }
        sha256_hex(data.as_str())
    }

    pub fn get_prev_hash(&self) -> (r: &String)
        ensures
            r@ == self.prev_hash@,
    {
        &self.prev_hash
    }

    pub fn get_hash(&self) -> (r: &String)
        ensures
            r@ == self.hash@,
    {
        &self.hash
    }

    pub fn get_block_data(&self) -> (r: &BlockData)
        ensures
            r.message == self.data.message,
    {
        &self.data
    }

    /// Seals the block: derives the Merkle root from the transactions
    /// present now (overwriting any prior root), refreshes the stored hash,
    /// and then searches nonces upward until the digest meets the
    /// difficulty target. The search gives no bound on its running time; it
    /// stops short of the target only when the whole remaining nonce space
    /// was searched and every nonce in it fails the target, which the
    /// contract states. Re-mining an already-consistent, already-mined
    /// block changes nothing.
    pub fn mine_block(&mut self, difficulty: usize)
        ensures
            final(self).data == old(self).data,
            final(self).prev_hash == old(self).prev_hash,
            final(self).timestamp == old(self).timestamp,
            final(self).transactions == old(self).transactions,
            final(self).nonce >= old(self).nonce,
            block_tree_ok(*final(self)),
            block_hash_ok(*final(self)),
            leading_zeros(final(self).hash@, difficulty as nat) || final(self).nonce
                == u128::MAX,
            final(self).nonce == u128::MAX && !leading_zeros(final(self).hash@, difficulty as nat)
                ==> forall|n: u128|
                old(self).nonce <= n ==> !leading_zeros(
                    sha256_hex_of(#[trigger] spec_block_input_at(*final(self), n)),
                    difficulty as nat,
                ),
            block_hash_ok(*old(self)) && block_tree_ok(*old(self)) && leading_zeros(
                old(self).hash@,
                difficulty as nat,
            ) ==> final(self).nonce == old(self).nonce && final(self).hash@ == old(self).hash@,
    {
        let tree = MerkleTreeNode::generate_tree(&self.transactions);
        self.transaction_merkle_tree = tree;
        let h = self.calculate_hash();
        self.hash = h;
        proof {
            if block_hash_ok(*old(self)) && block_tree_ok(*old(self)) {
                assert(spec_root_text(self.transaction_merkle_tree) == spec_root_text(
                    old(self).transaction_merkle_tree,
                ));
                assert(spec_block_input(*self) == spec_block_input(*old(self)));
            }
        }
        let ghost tree0 = self.transaction_merkle_tree;
        let mut found = has_leading_zeros(self.hash.as_str(), difficulty);
        while !found && self.nonce < u128::MAX
            invariant
                found == leading_zeros(self.hash@, difficulty as nat),
                block_hash_ok(*self),
                block_tree_ok(*self),
                self.data == old(self).data,
                self.prev_hash == old(self).prev_hash,
                self.timestamp == old(self).timestamp,
                self.transactions == old(self).transactions,
                self.transaction_merkle_tree == tree0,
                self.nonce >= old(self).nonce,
                forall|n: u128|
                    old(self).nonce <= n < self.nonce ==> !leading_zeros(
                        sha256_hex_of(#[trigger] spec_block_input_at(*self, n)),
                        difficulty as nat,
                    ),
                block_hash_ok(*old(self)) && block_tree_ok(*old(self)) && leading_zeros(
                    old(self).hash@,
                    difficulty as nat,
                ) ==> found && self.nonce == old(self).nonce && self.hash@ == old(self).hash@,
            decreases u128::MAX - self.nonce,
        {
            let ghost pre = *self;
            self.nonce = self.nonce + 1;
            let h = self.calculate_hash();
            self.hash = h;
            found = has_leading_zeros(self.hash.as_str(), difficulty);
            proof {
                assert forall|n: u128| old(self).nonce <= n < self.nonce implies !leading_zeros(
                    sha256_hex_of(#[trigger] spec_block_input_at(*self, n)),
                    difficulty as nat,
                ) by {
                    assert(spec_block_input_at(*self, n) == spec_block_input_at(pre, n));
                    if n == pre.nonce {
                        assert(spec_block_input_at(pre, n) == spec_block_input(pre));
                        assert(pre.hash@ == sha256_hex_of(spec_block_input(pre)));
                    }
                }
            }
        }
        proof {
            if !found {
                assert(self.nonce == u128::MAX);
                assert(spec_block_input_at(*self, u128::MAX) == spec_block_input(*self));
            }
        }
    }

    /// Appends a transaction. To be reflected in the stored hash and Merkle
    /// root, it must be added before mining.
    pub fn add_transaction(&mut self, transaction: Transaction)
        ensures
            final(self).transactions@ == old(self).transactions@.push(transaction),
            final(self).data == old(self).data,
            final(self).hash == old(self).hash,
            final(self).prev_hash == old(self).prev_hash,
            final(self).timestamp == old(self).timestamp,
            final(self).nonce == old(self).nonce,
            final(self).transaction_merkle_tree == old(self).transaction_merkle_tree,
    {
        self.transactions.push(transaction);
    }

    /// Builds (without storing) a Merkle tree from the current transaction
    /// list.
    pub fn generate_tree(&self) -> (res: Option<MerkleTreeNode>)
        ensures
            res is Some <==> self.transactions@.len() > 0,
            res matches Some(root) ==> root.well_formed() && root.hash@ == merkle_root(
                tx_hashes(self.transactions@),
            ) && root.leaf_hashes() == tx_hashes(self.transactions@),
    {
        MerkleTreeNode::generate_tree(&self.transactions)
    }
}

} // verus!
