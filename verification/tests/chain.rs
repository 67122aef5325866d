use graphite_chain::block::{Block, BlockData};
use graphite_chain::chain::Chain;

#[test]
fn it_validates_hashes_in_chain() {
    let mut chain = Chain::new();
    let block = Block::new(
        BlockData::new(String::from("Test")),
        chain.get_last_block().get_hash().clone(),
    );

    chain.add_block(block);

    assert!(chain.validate_chain());
}

#[test]
fn it_validates_a_fresh_chain_with_only_its_genesis_block() {
    let chain = Chain::new();

    assert_eq!(2, chain.difficulty);
    assert_eq!(1, chain.chain.len());
    assert!(chain.validate_chain());
}

#[test]
fn it_validates_a_fresh_chain_at_a_custom_difficulty() {
    let chain = Chain::with_difficulty(1);

    assert_eq!(1, chain.difficulty);
    assert!(chain.validate_chain());
}

#[test]
fn it_invalidates_a_chain_with_a_tampered_block_hash() {
    let mut chain = Chain::new();
    for label in ["First Block", "Second Block", "Third Block"] {
        let mut block = Block::new(
            BlockData::new(String::from(label)),
            chain.get_last_block().get_hash().clone(),
        );
        block.mine_block(chain.difficulty);
        chain.add_block(block);
    }

    assert!(chain.validate_chain());

    chain.chain[2].hash = String::from("tampered");

    assert!(!chain.validate_chain());
}

#[test]
fn it_invalidates_a_chain_with_a_broken_link() {
    let mut chain = Chain::new();
    for label in ["First Block", "Second Block"] {
        let mut block = Block::new(
            BlockData::new(String::from(label)),
            chain.get_last_block().get_hash().clone(),
        );
        block.mine_block(chain.difficulty);
        chain.add_block(block);
    }

    assert!(chain.validate_chain());

    chain.chain[1].prev_hash = String::from("severed");

    assert!(!chain.validate_chain());
}
