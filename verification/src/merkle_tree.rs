//! The binary digest tree summarizing an ordered transaction list, built as
//! an iterative bottom-up reduction over owned nodes.

use crate::digest::{sha256_hex, sha256_hex_of};
use crate::transaction::Transaction;
use vstd::prelude::*;
use vstd::string::StringExecFns;

verus! {

/// A node of the Merkle tree. Leaves carry a transaction's hash and no
/// children; an internal node carries the digest of its children's
/// concatenated hashes, an unpaired child being combined with empty text.
#[derive(Debug)]
pub struct MerkleTreeNode {
    pub hash: String,
    pub left: Option<Box<MerkleTreeNode>>,
    pub right: Option<Box<MerkleTreeNode>>,
}

/// One bottom-up reduction round over a level of hashes: consecutive pairs
/// are digested together, in order; a trailing unpaired hash is digested
/// against the empty text (carried up, never duplicated).
pub open spec fn pair_up(level: Seq<Seq<char>>) -> Seq<Seq<char>>
    decreases level.len(),
{
    if level.len() == 0 {
        Seq::empty()
    } else if level.len() == 1 {
        seq![sha256_hex_of(level[0] + Seq::<char>::empty())]
    } else {
        seq![sha256_hex_of(level[0] + level[1])] + pair_up(level.skip(2))
    }
}

pub proof fn lemma_pair_up_len(level: Seq<Seq<char>>)
    ensures
        pair_up(level).len() == (level.len() + 1) / 2,
    decreases level.len(),
{
    if level.len() >= 2 {
        lemma_pair_up_len(level.skip(2));
    }
}

/// The hash a non-empty level reduces to: pair up round by round until a
/// single hash remains.
pub open spec fn root_of_level(level: Seq<Seq<char>>) -> Seq<char>
    decreases level.len(),
    via root_of_level_decreases
{
    if level.len() <= 1 {
        if level.len() == 1 {
            level[0]
        } else {
            Seq::empty()
        }
    } else {
        root_of_level(pair_up(level))
    }
}

#[via_fn]
proof fn root_of_level_decreases(level: Seq<Seq<char>>) {
    if level.len() > 1 {
        lemma_pair_up_len(level);
    }
}

/// The Merkle root of an ordered, non-empty list of leaf hashes: the leaves
/// go through one pairing round (so even a single leaf is digested once),
/// and the resulting level reduces to its root.
pub open spec fn merkle_root(hashes: Seq<Seq<char>>) -> Seq<char> {
    root_of_level(pair_up(hashes))
}

/// The hashes carried by a sequence of nodes, in order.
pub open spec fn node_hashes(nodes: Seq<MerkleTreeNode>) -> Seq<Seq<char>> {
    nodes.map_values(|n: MerkleTreeNode| n.hash@)
}

/// The hashes of a sequence of transactions, in order.
pub open spec fn tx_hashes(txs: Seq<Transaction>) -> Seq<Seq<char>> {
    txs.map_values(|t: Transaction| t.hash@)
}

pub open spec fn all_well_formed(nodes: Seq<MerkleTreeNode>) -> bool {
    forall|i: int| 0 <= i < nodes.len() ==> (#[trigger] nodes[i]).well_formed()
}

/// The leaf hashes under a whole level of nodes, read left to right.
pub open spec fn level_leaf_hashes(nodes: Seq<MerkleTreeNode>) -> Seq<Seq<char>>
    decreases nodes.len(),
{
    if nodes.len() == 0 {
        Seq::empty()
    } else {
        nodes[0].leaf_hashes() + level_leaf_hashes(nodes.skip(1))
    }
}

pub proof fn lemma_level_leaf_hashes_push(nodes: Seq<MerkleTreeNode>, n: MerkleTreeNode)
    ensures
        level_leaf_hashes(nodes.push(n)) == level_leaf_hashes(nodes) + n.leaf_hashes(),
    decreases nodes.len(),
{
    if nodes.len() == 0 {
        assert(nodes.push(n).skip(1) =~= Seq::<MerkleTreeNode>::empty());
        assert(level_leaf_hashes(nodes.push(n).skip(1)) == Seq::<Seq<char>>::empty());
        assert(level_leaf_hashes(nodes) == Seq::<Seq<char>>::empty());
        assert(nodes.push(n)[0] == n);
        assert(level_leaf_hashes(nodes.push(n)) =~= level_leaf_hashes(nodes) + n.leaf_hashes());
    } else {
        assert(nodes.push(n).skip(1) =~= nodes.skip(1).push(n));
        lemma_level_leaf_hashes_push(nodes.skip(1), n);
        assert(level_leaf_hashes(nodes.push(n).skip(1)) == level_leaf_hashes(nodes.skip(1))
            + n.leaf_hashes());
        assert(nodes.push(n)[0] == nodes[0]);
        assert(level_leaf_hashes(nodes.push(n)) == nodes[0].leaf_hashes() + (level_leaf_hashes(
            nodes.skip(1),
        ) + n.leaf_hashes()));
        assert(level_leaf_hashes(nodes) == nodes[0].leaf_hashes() + level_leaf_hashes(
            nodes.skip(1),
        ));
        assert(level_leaf_hashes(nodes.push(n)) =~= level_leaf_hashes(nodes) + n.leaf_hashes());
    }
}

/// Digests the concatenation of two hash texts.
fn generate_hash_of_children(left: &str, right: &str) -> (r: String)
    ensures
        r@ == sha256_hex_of(left@ + right@),
{
    let mut data = String::new();
    data.append(left);
    data.append(right);
    proof {
        assert(data@ =~= left@ + right@);
    }
    sha256_hex(data.as_str())
}

impl MerkleTreeNode {
    /// Structural soundness of a (sub)tree: every internal node's hash is
    /// the digest of its children's concatenated hashes, a lone left child
    /// standing against empty text; a node with only a right child never
    /// arises.
    pub open spec fn well_formed(self) -> bool
        decreases self,
    {
        match self.left {
            None => self.right is None,
            Some(l) => match self.right {
                None => self.hash@ == sha256_hex_of(l.hash@ + Seq::<char>::empty())
                    && l.well_formed(),
                Some(r) => self.hash@ == sha256_hex_of(l.hash@ + r.hash@) && l.well_formed()
                    && r.well_formed(),
            },
        }
    }

    /// The hashes carried by the (sub)tree's leaves, read left to right; a
    /// childless node is itself a leaf.
    pub open spec fn leaf_hashes(self) -> Seq<Seq<char>>
        decreases self,
    {
        match self.left {
            None => seq![self.hash@],
            Some(l) => match self.right {
                None => l.leaf_hashes(),
                Some(r) => l.leaf_hashes() + r.leaf_hashes(),
            },
        }
    }

    pub fn new(
        hash: String,
        left: Option<Box<MerkleTreeNode>>,
        right: Option<Box<MerkleTreeNode>>,
    ) -> (n: MerkleTreeNode)
        ensures
            n == (MerkleTreeNode { hash, left, right }),
    {
        MerkleTreeNode { hash, left, right }
    }

    /// Builds the tree over the transactions' hashes, in input order; `None`
    /// exactly when the list is empty. The root hash equals the
    /// specification-level Merkle root of the hash list, and the tree's
    /// leaves, read left to right, are exactly the transactions' hashes:
    /// none dropped, re-sorted or duplicated.
    pub fn generate_tree(transactions: &Vec<Transaction>) -> (res: Option<MerkleTreeNode>)
        ensures
            res is Some <==> transactions@.len() > 0,
            res matches Some(root) ==> root.well_formed() && root.hash@ == merkle_root(
                tx_hashes(transactions@),
            ) && root.leaf_hashes() == tx_hashes(transactions@),
    {
        if transactions.len() == 0 {
            return None;
        }
        let mut leaves: Vec<MerkleTreeNode> = Vec::new();
        let mut i: usize = 0;
        while i < transactions.len()
            invariant
                i <= transactions@.len(),
                leaves@.len() == i,
                all_well_formed(leaves@),
                node_hashes(leaves@) == tx_hashes(transactions@).take(i as int),
                level_leaf_hashes(leaves@) == tx_hashes(transactions@).take(i as int),
            decreases transactions@.len() - i,
        {
            let h = transactions[i].hash.clone();
            let leaf = MerkleTreeNode::new(h, None, None);
            let ghost lb = leaves@;
            leaves.push(leaf);
            i += 1;
            proof {
                assert(node_hashes(leaves@) =~= tx_hashes(transactions@).take(i as int));
                assert(leaf.leaf_hashes() =~= seq![leaf.hash@]);
                lemma_level_leaf_hashes_push(lb, leaf);
                assert(level_leaf_hashes(leaves@) =~= tx_hashes(transactions@).take(i as int));
            }
        }
        proof {
            assert(node_hashes(leaves@) =~= tx_hashes(transactions@));
            assert(level_leaf_hashes(leaves@) =~= tx_hashes(transactions@));
        }
        let first_level = build_level(leaves);
        let root = MerkleTreeNode::construct_tree_from_leaves(first_level);
        Some(root)
    }

    /// Reduces an already-paired level of nodes, round by round, to the
    /// single root node.
    fn construct_tree_from_leaves(nodes: Vec<MerkleTreeNode>) -> (root: MerkleTreeNode)
        requires
            nodes@.len() >= 1,
            all_well_formed(nodes@),
        ensures
            root.well_formed(),
            root.hash@ == root_of_level(node_hashes(nodes@)),
            root.leaf_hashes() == level_leaf_hashes(nodes@),
            nodes@.len() == 1 ==> root == nodes@[0],
    {
        let ghost orig = nodes@;
        let mut level = nodes;
        while level.len() > 1
            invariant
                level@.len() >= 1,
                all_well_formed(level@),
                root_of_level(node_hashes(level@)) == root_of_level(node_hashes(orig)),
                level_leaf_hashes(level@) == level_leaf_hashes(orig),
                orig.len() == 1 ==> level@ == orig,
            decreases level@.len(),
        {
            let ghost before = node_hashes(level@);
            proof {
                lemma_pair_up_len(before);
            }
            level = build_level(level);
            proof {
                assert(root_of_level(before) == root_of_level(pair_up(before)));
            }
        }
        let ghost last_level = level@;
        let root = level.remove(0);
        proof {
            assert(node_hashes(last_level).len() == 1);
            assert(root_of_level(node_hashes(last_level)) == node_hashes(last_level)[0]);
            assert(node_hashes(last_level)[0] == root.hash@);
            assert(root == last_level[0]);
            assert(last_level.skip(1) =~= Seq::<MerkleTreeNode>::empty());
            assert(level_leaf_hashes(last_level) == last_level[0].leaf_hashes()
                + level_leaf_hashes(last_level.skip(1)));
            assert(level_leaf_hashes(last_level.skip(1)) == Seq::<Seq<char>>::empty());
            assert(level_leaf_hashes(last_level) =~= root.leaf_hashes());
        }
        root
    }
}

/// One executable pairing round: consumes a level of well-formed nodes and
/// returns the parent level, whose hashes are exactly `pair_up` of the
/// input's hashes.
fn build_level(nodes: Vec<MerkleTreeNode>) -> (parents: Vec<MerkleTreeNode>)
    requires
        all_well_formed(nodes@),
    ensures
        node_hashes(parents@) == pair_up(node_hashes(nodes@)),
        level_leaf_hashes(parents@) == level_leaf_hashes(nodes@),
        all_well_formed(parents@),
        parents@.len() == (nodes@.len() + 1) / 2,
{
    let ghost orig = node_hashes(nodes@);
    let ghost orig_leaves = level_leaf_hashes(nodes@);
    let mut rest = nodes;
    let mut parents: Vec<MerkleTreeNode> = Vec::new();
    while rest.len() > 0
        invariant
            all_well_formed(rest@),
            all_well_formed(parents@),
            node_hashes(parents@) + pair_up(node_hashes(rest@)) == pair_up(orig),
            level_leaf_hashes(parents@) + level_leaf_hashes(rest@) == orig_leaves,
        decreases rest@.len(),
    {
        let ghost rb = rest@;
        let ghost hs = node_hashes(rest@);
        let ghost ps = node_hashes(parents@);
        let ghost pl = level_leaf_hashes(parents@);
        let left = rest.remove(0);
        if rest.len() > 0 {
            let right = rest.remove(0);
            let h = generate_hash_of_children(left.hash.as_str(), right.hash.as_str());
            let parent = MerkleTreeNode {
                hash: h,
                left: Some(Box::new(left)),
                right: Some(Box::new(right)),
            };
            assert(parent.well_formed());
            assert(parent.leaf_hashes() == left.leaf_hashes() + right.leaf_hashes());
            let ghost pb = parents@;
            parents.push(parent);
            proof {
                assert(node_hashes(rest@) =~= hs.skip(2));
                assert(node_hashes(parents@) =~= ps.push(sha256_hex_of(hs[0] + hs[1])));
                assert(pair_up(hs) == seq![sha256_hex_of(hs[0] + hs[1])] + pair_up(hs.skip(2)));
                assert(node_hashes(parents@) + pair_up(node_hashes(rest@)) =~= ps + pair_up(hs));
                assert(rest@ =~= rb.skip(1).skip(1));
                assert(level_leaf_hashes(rb) == rb[0].leaf_hashes() + level_leaf_hashes(
                    rb.skip(1),
                ));
                assert(level_leaf_hashes(rb.skip(1)) == rb.skip(1)[0].leaf_hashes()
                    + level_leaf_hashes(rb.skip(1).skip(1)));
                lemma_level_leaf_hashes_push(pb, parent);
                assert(level_leaf_hashes(parents@) + level_leaf_hashes(rest@) =~= pl
                    + level_leaf_hashes(rb));
            }
        } else {
            proof {
                reveal_strlit("");
            }
            let h = generate_hash_of_children(left.hash.as_str(), "");
            let parent = MerkleTreeNode { hash: h, left: Some(Box::new(left)), right: None };
            assert(""@ =~= Seq::<char>::empty());
            assert(parent.well_formed());
            assert(parent.leaf_hashes() == left.leaf_hashes());
            let ghost pb = parents@;
            parents.push(parent);
            proof {
                lemma_level_leaf_hashes_push(pb, parent);
                assert(node_hashes(rest@) =~= Seq::<Seq<char>>::empty());
                assert(node_hashes(parents@) =~= ps.push(
                    sha256_hex_of(hs[0] + Seq::<char>::empty()),
                ));
                assert(pair_up(hs) =~= seq![sha256_hex_of(hs[0] + Seq::<char>::empty())]);
                assert(node_hashes(parents@) + pair_up(node_hashes(rest@)) =~= ps + pair_up(hs));
                assert(rest@ =~= rb.skip(1));
                assert(level_leaf_hashes(rb) == rb[0].leaf_hashes() + level_leaf_hashes(
                    rb.skip(1),
                ));
                assert(level_leaf_hashes(rb.skip(1)) =~= Seq::<Seq<char>>::empty());
                assert(level_leaf_hashes(parents@) + level_leaf_hashes(rest@) =~= pl
                    + level_leaf_hashes(rb));
            }
        }
    }
    proof {
        assert(node_hashes(rest@) =~= Seq::<Seq<char>>::empty());
        assert(node_hashes(parents@) =~= pair_up(orig));
        assert(level_leaf_hashes(rest@) =~= Seq::<Seq<char>>::empty());
        assert(level_leaf_hashes(parents@) =~= orig_leaves);
        lemma_pair_up_len(orig);
    }
    parents
}

/// Law: the Merkle root is a function of the ordered hash list alone — two
/// transaction lists whose hash lists agree (order included) have the same
/// root. Nothing is ever re-sorted, so a permuted list pairs differently.
pub proof fn lemma_merkle_root_deterministic(a: Seq<Transaction>, b: Seq<Transaction>)
    requires
        tx_hashes(a) == tx_hashes(b),
    ensures
        merkle_root(tx_hashes(a)) == merkle_root(tx_hashes(b)),
{
}

/// Law: a single leaf's root is `digest(leaf_hash || "")`, one hashing round
/// above the raw leaf hash, never the leaf hash itself.
pub proof fn lemma_single_leaf_root(h: Seq<char>)
    ensures
        merkle_root(seq![h]) == sha256_hex_of(h + Seq::<char>::empty()),
{
    let level = seq![h];
    assert(pair_up(level) =~= seq![sha256_hex_of(h + Seq::<char>::empty())]);
}

/// Law: two leaves' root is `digest(hash1 || hash2)`, the leaves
/// concatenated in input order.
pub proof fn lemma_two_leaf_root(h1: Seq<char>, h2: Seq<char>)
    ensures
        merkle_root(seq![h1, h2]) == sha256_hex_of(h1 + h2),
{
    let level = seq![h1, h2];
    assert(level.skip(2) =~= Seq::<Seq<char>>::empty());
    assert(pair_up(Seq::<Seq<char>>::empty()) =~= Seq::<Seq<char>>::empty());
    assert(pair_up(level) =~= seq![sha256_hex_of(h1 + h2)]);
}

} // verus!
