//! The records the engine persists and the values it hands to its
//! collaborators.

pub mod lottery;
pub mod metadata;
pub mod nft_lottery;
pub mod sell;
pub mod share;
pub mod token;
