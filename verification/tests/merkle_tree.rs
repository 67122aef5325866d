use graphite_chain::block::{Block, BlockData};
use graphite_chain::merkle_tree::MerkleTreeNode;
use graphite_chain::transaction::Transaction;
use sha2::{Digest, Sha256};

fn sha256_upper_hex(data: &str) -> String {
    let mut hasher = Sha256::new();
    hasher.update(data);
    format!("{:X}", hasher.finalize())
}

#[test]
fn it_generates_a_valid_tree_with_even_amount_of_leaves() {
    let mut block = Block::new(BlockData::new(String::from("test")), String::from(""));

    let t1 = Transaction::new(
        String::from("src"),
        String::from("dest"),
        format!("{}", 0.01f64),
        format!("{}", 0.01f64),
    );
    let t2 = Transaction::new(
        String::from("src"),
        String::from("dest"),
        format!("{}", 0.02f64),
        format!("{}", 0.02f64),
    );

    let t1_hash = t1.hash().clone();
    let t2_hash = t2.hash().clone();

    block.add_transaction(t1);
    block.add_transaction(t2);

    let root_hash = block.generate_tree().unwrap().hash;
    let expected_hash = sha256_upper_hex(&format!("{}{}", t1_hash, t2_hash));

    assert!(root_hash == expected_hash);
}

#[test]
fn it_generates_a_valid_tree_with_odd_amount_of_leaves() {
    let mut block = Block::new(BlockData::new(String::from("test")), String::from(""));

    let t1 = Transaction::new(
        String::from("src"),
        String::from("dest"),
        format!("{}", 0.01f64),
        format!("{}", 0.01f64),
    );

    let t1_hash = t1.hash().clone();

    block.add_transaction(t1);

    let root_hash = block.generate_tree().unwrap().hash;
    let expected_hash = sha256_upper_hex(&format!("{}{}", t1_hash, ""));

    assert!(root_hash == expected_hash);
}

#[test]
fn it_generates_no_tree_for_an_empty_transaction_list() {
    let transactions: Vec<Transaction> = Vec::new();

    assert!(MerkleTreeNode::generate_tree(&transactions).is_none());
}

#[test]
fn it_promotes_an_odd_leaf_through_two_rounds() {
    let t1 = Transaction::new(String::from("a"), String::from("b"), String::from("1"), String::from("1"));
    let t2 = Transaction::new(String::from("c"), String::from("d"), String::from("2"), String::from("2"));
    let t3 = Transaction::new(String::from("e"), String::from("f"), String::from("3"), String::from("3"));

    let pair_digest = sha256_upper_hex(&format!("{}{}", t1.hash(), t2.hash()));
    let promoted_digest = sha256_upper_hex(&format!("{}{}", t3.hash(), ""));
    let expected_root = sha256_upper_hex(&format!("{}{}", pair_digest, promoted_digest));

    let transactions = vec![t1, t2, t3];
    let root_hash = MerkleTreeNode::generate_tree(&transactions).unwrap().hash;

    assert_eq!(expected_root, root_hash);
}

#[test]
fn it_builds_the_same_root_for_the_same_list() {
    let t1 = Transaction::new(String::from("a"), String::from("b"), String::from("1"), String::from("2"));
    let t2 = Transaction::new(String::from("c"), String::from("d"), String::from("3"), String::from("4"));

    let transactions = vec![t1, t2];
    let first = MerkleTreeNode::generate_tree(&transactions).unwrap().hash;
    let second = MerkleTreeNode::generate_tree(&transactions).unwrap().hash;

    assert_eq!(first, second);
}

#[test]
fn it_builds_a_different_root_for_a_permuted_list() {
    let t1 = Transaction::new(String::from("a"), String::from("b"), String::from("1"), String::from("2"));
    let t2 = Transaction::new(String::from("c"), String::from("d"), String::from("3"), String::from("4"));

    let forward = vec![t1.clone(), t2.clone()];
    let backward = vec![t2, t1];

    let forward_root = MerkleTreeNode::generate_tree(&forward).unwrap().hash;
    let backward_root = MerkleTreeNode::generate_tree(&backward).unwrap().hash;

    assert_ne!(forward_root, backward_root);
}
