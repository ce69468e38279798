//! The modules of the chain, each as a set of operations on top of a runner.

pub mod authz;
pub mod dex;
pub mod distribution;
pub mod gov;
pub mod nft;
pub mod staking;

pub use authz::Authz;
pub use dex::Dex;
pub use distribution::Distribution;
pub use gov::Gov;
pub use nft::NFT;
pub use staking::Staking;
