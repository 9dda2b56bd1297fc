//! The operations of the engine, one per module.

pub mod create_share;
pub mod del_pda;
pub mod save_token;
pub mod sell_withdrawal;
