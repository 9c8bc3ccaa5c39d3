//! The behavioural fraud and reputation engine.

pub mod engine;
pub mod fraud_detector;
pub mod pattern;
pub mod reward_optimizer;
pub mod timing;

pub use engine::{AIConsensus, AIStats};
pub use fraud_detector::FraudDetector;
pub use pattern::{ActionEvent, GlobalBehaviorStats, UserBehaviorPattern};
pub use reward_optimizer::{RewardEntry, RewardOptimization, RewardOptimizer};
