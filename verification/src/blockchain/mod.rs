//! The chain ledger: blocks, Merkle commitments, transactions and balances.

pub mod block;
pub mod ledger;
pub mod merkle;
pub mod transaction;

pub use block::Block;
pub use ledger::{BitnunBlockchain, ChainStats};
pub use merkle::MerkleTree;
pub use transaction::Transaction;
