//! A single-node ledger that rewards verified human actions.
//!
//! The crate holds the hash-linked chain with its Merkle commitments, the
//! proof-of-action primitive with stake-weighted validator consensus, and the
//! behavioural fraud and reputation engine whose authenticity score gates
//! every reward. Scores are fixed-point numbers in millionths and timestamps
//! are whole milliseconds, so that every rule is exact integer arithmetic.

pub mod ai;
pub mod blockchain;
pub mod bounds;
pub mod consensus;
pub mod contracts;
pub mod digest;
pub mod json;
pub mod keyed;
pub mod network;
pub mod score;
pub mod stamp;
pub mod text;
