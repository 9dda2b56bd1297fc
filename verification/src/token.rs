//! The token service as the ledger models it: moving the one unit a holding
//! escrows, and issuing the one unit of a new token.

pub mod mint_token;
pub mod transfer_token;
pub mod transfer_token_seed;
