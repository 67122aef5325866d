//! A minimal single-node append-only ledger: transactions summarized by a
//! Merkle tree, blocks linked by digests and sealed by a proof-of-work nonce
//! search, and a chain that validates the linkage of the whole sequence.

pub mod block;
pub mod chain;
pub mod clock;
pub mod decimal;
pub mod digest;
pub mod merkle_tree;
pub mod transaction;
