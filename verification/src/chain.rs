//! The append-only chain: seeded with a mined genesis block, grown by
//! appends, and validated pair by pair over the whole sequence.

use crate::block::{block_hash_ok, Block, BlockData};
use crate::digest::leading_zeros;
use vstd::prelude::*;
use vstd::string::StringExecFns;

verus! {

/// The difficulty `Chain::new` mines at; chains with another policy are
/// built through `Chain::with_difficulty`.
pub const DIFFICULTY: usize = 2;

/// An append-only sequence of blocks, never empty once constructed.
#[derive(Debug)]
pub struct Chain {
    pub difficulty: usize,
    pub chain: Vec<Block>,
}

/// The check validation applies at each adjacent pair: the later block's
/// stored hash matches its recomputed digest, and its previous-hash link
/// equals the earlier block's stored hash.
pub open spec fn link_ok(prev: Block, curr: Block) -> bool {
    block_hash_ok(curr) && curr.prev_hash@ == prev.hash@
}

/// What `validate_chain` decides, over the whole sequence. A lone genesis
/// block must match its recomputed digest and have an empty previous hash; a
/// longer chain must pass the pair check at every adjacent pair, the
/// conjunction over all of them. An empty sequence never validates (the
/// construction invariant rules it out anyway).
pub open spec fn chain_valid(blocks: Seq<Block>) -> bool {
    if blocks.len() == 0 {
        false
    } else if blocks.len() == 1 {
        block_hash_ok(blocks[0]) && blocks[0].prev_hash@ == Seq::<char>::empty()
    } else {
        forall|i: int| 1 <= i < blocks.len() ==> #[trigger] link_ok(blocks[i - 1], blocks[i])
    }
}

impl Chain {
    /// Mines the fixed first block: a "Genesis Block" payload and an empty
    /// previous hash.
    fn get_genesis_block(difficulty: usize) -> (b: Block)
        ensures
            block_hash_ok(b),
            b.prev_hash@ == Seq::<char>::empty(),
            b.data.message@ == "Genesis Block"@,
            leading_zeros(b.hash@, difficulty as nat) || b.nonce == u128::MAX,
    {
        let mut genesis = Block::new(BlockData::new("Genesis Block".to_owned()), String::new());
        genesis.mine_block(difficulty);
        genesis
    }

    /// The most recently appended block. The construction invariant keeps a
    /// chain non-empty; asking an empty one would be a programming error,
    /// which this precondition makes explicit.
    pub fn get_last_block(&self) -> (b: &Block)
        requires
            self.chain@.len() > 0,
        ensures
            *b == self.chain@.last(),
    {
        &self.chain[self.chain.len() - 1]
    }

    /// A chain at the default difficulty, holding its freshly mined genesis
    /// block.
    pub fn new() -> (c: Chain)
        ensures
            c.difficulty == DIFFICULTY,
            c.chain@.len() == 1,
            chain_valid(c.chain@),
            c.chain@[0].data.message@ == "Genesis Block"@,
            leading_zeros(c.chain@[0].hash@, DIFFICULTY as nat) || c.chain@[0].nonce
                == u128::MAX,
    {
        Chain::with_difficulty(DIFFICULTY)
    }

    /// A chain at an explicit difficulty, holding its freshly mined genesis
    /// block; chains with different policies can coexist.
    pub fn with_difficulty(difficulty: usize) -> (c: Chain)
        ensures
            c.difficulty == difficulty,
            c.chain@.len() == 1,
            chain_valid(c.chain@),
            c.chain@[0].data.message@ == "Genesis Block"@,
            leading_zeros(c.chain@[0].hash@, difficulty as nat) || c.chain@[0].nonce
                == u128::MAX,
    {
        let genesis = Chain::get_genesis_block(difficulty);
        let mut blocks: Vec<Block> = Vec::new();
        blocks.push(genesis);
        Chain { difficulty, chain: blocks }
    }

    /// Appends an already-mined block. Neither its proof-of-work nor its
    /// link is verified here; that is `validate_chain`'s or the caller's
    /// responsibility.
    pub fn add_block(&mut self, block: Block)
        ensures
            final(self).chain@ == old(self).chain@.push(block),
            final(self).difficulty == old(self).difficulty,
    {
        self.chain.push(block);
    }

    /// Decides `chain_valid` for the whole sequence: every adjacent pair is
    /// checked, and the first failing pair settles the answer.
    pub fn validate_chain(&self) -> (r: bool)
        ensures
            r == chain_valid(self.chain@),
    {
        if self.chain.len() == 0 {
            return false;
        }
        if self.chain.len() == 1 {
            let genesis = &self.chain[0];
            let recomputed = genesis.calculate_hash();
            let hash_matches = recomputed == genesis.hash;
            let prev_empty = genesis.prev_hash.as_str().is_empty();
            proof {
                if genesis.prev_hash@.len() == 0 {
                    assert(genesis.prev_hash@ =~= Seq::<char>::empty());
                }
            }
            return hash_matches && prev_empty;
        }
        let mut x: usize = 1;
        while x < self.chain.len()
            invariant
                1 <= x <= self.chain@.len(),
                self.chain@.len() >= 2,
                forall|i: int| 1 <= i < x ==> #[trigger] link_ok(
                    self.chain@[i - 1],
                    self.chain@[i],
                ),
            decreases self.chain@.len() - x,
        {
            let curr = &self.chain[x];
            let prev = &self.chain[x - 1];
            let recomputed = curr.calculate_hash();
            if !(curr.hash == recomputed) {
                proof {
                    assert(!link_ok(self.chain@[x - 1], self.chain@[x as int]));
                }
                return false;
            }
            if !(prev.hash == curr.prev_hash) {
                proof {
                    assert(!link_ok(self.chain@[x - 1], self.chain@[x as int]));
                }
                return false;
            }
            x += 1;
        }
        true
    }
}

/// Law: a valid chain stays valid after appending any block whose
/// previous-hash link equals the prior last block's stored hash and whose
/// own stored hash matches its recomputed digest.
pub proof fn lemma_append_preserves_validity(blocks: Seq<Block>, b: Block)
    requires
        chain_valid(blocks),
        b.prev_hash@ == blocks.last().hash@,
        block_hash_ok(b),
    ensures
        chain_valid(blocks.push(b)),
{
    let ext = blocks.push(b);
    assert forall|i: int| 1 <= i < ext.len() implies #[trigger] link_ok(ext[i - 1], ext[i]) by {
        if i < blocks.len() {
            assert(link_ok(blocks[i - 1], blocks[i]));
        } else {
            assert(ext[i] == b && ext[i - 1] == blocks.last());
        }
    }
}

/// Law: tampering with any non-genesis block — a stored hash that no longer
/// matches its recomputed digest, or a link that no longer matches the
/// predecessor's stored hash — invalidates the whole chain, wherever in the
/// middle the block stands.
pub proof fn lemma_tamper_invalidates(blocks: Seq<Block>, i: int)
    requires
        blocks.len() >= 2,
        1 <= i < blocks.len(),
        !link_ok(blocks[i - 1], blocks[i]),
    ensures
        !chain_valid(blocks),
{
}

} // verus!
