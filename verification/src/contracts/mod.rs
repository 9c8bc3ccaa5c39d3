//! Ledgers built on top of the chain: the token, the NFT collection, the
//! staking pool and the scripted contract.

pub mod accounts;
pub mod btn_token;
pub mod nft_contract;
pub mod smart_contract;
pub mod staking;

pub use btn_token::BTNToken;
pub use nft_contract::{BitnunNFT, NFTMetadata};
pub use smart_contract::SmartContract;
pub use staking::{StakeInfo, StakingContract, UserStake};
