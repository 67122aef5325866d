use graphite_chain::block::{Block, BlockData};
use sha2::{Digest, Sha256};

#[test]
fn it_creates_a_block_with_given_data() {
    let block = Block::new(BlockData::new(String::from("test")), String::from(""));

    assert_eq!(
        BlockData::new(String::from("test")).message,
        block.get_block_data().message
    );
}

#[test]
fn it_creates_a_block_with_given_prev_hash() {
    let block = Block::new(
        BlockData::new(String::from("test")),
        String::from("prev_hash"),
    );

    assert_eq!("prev_hash", block.prev_hash);
}

#[test]
fn it_generates_a_valid_hash_according_to_difficulty_after_mining() {
    let mut block = Block::new(
        BlockData::new(String::from("test")),
        String::from("prev_hash"),
    );
    let diff = 1;
    block.mine_block(diff);

    let expected_format = format!("{}", vec!["0"; diff].into_iter().collect::<String>());
    let valid_hash = block.hash.contains(&expected_format);

    println!("{}", block.hash);

    assert!(valid_hash);
}

#[test]
fn it_generates_hash_based_on_block_content_after_mining() {
    let mut block = Block::new(
        BlockData::new(String::from("test")),
        String::from("prev_hash"),
    );
    let diff = 1;
    block.mine_block(diff);

    let transaction_root = match &block.transaction_merkle_tree {
        None => String::new(),
        Some(r) => r.hash.clone(),
    };

    let expected_hash_content = format!(
        "{}{}{}{}{}",
        block.prev_hash, block.timestamp, block.data.message, block.nonce, transaction_root
    );

    let mut hasher = Sha256::new();
    hasher.update(expected_hash_content);

    let expected_hash = format!("{:X}", hasher.finalize());

    assert!(expected_hash == block.hash);
}

#[test]
fn it_starts_with_the_leading_zeros_the_difficulty_demands() {
    let mut block = Block::new(
        BlockData::new(String::from("test")),
        String::from("prev_hash"),
    );
    block.mine_block(2);

    assert!(block.hash.starts_with("00"));
    assert_eq!(64, block.hash.len());
}
