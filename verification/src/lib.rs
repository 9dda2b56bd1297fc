//! A custody-and-settlement engine for a token marketplace on a shared ledger.
//!
//! The engine trusts nothing a caller supplies: every address it is handed is
//! derived again from its seeds, every decision is taken from the persisted
//! record state, and every operation either commits all of its effects or
//! leaves the ledger as it found it.
//!
//! - [`address`]: capability addresses, their derivation and verification.
//! - [`ledger`]: the address-keyed store and the transaction that stages
//!   changes to it; [`store`] is the map both are built on.
//! - [`lifecycle`]: records created on first use, closed and swept.
//! - [`token`]: the token service as the ledger models it.
//! - [`utils`]: the operations: withdrawal on a sale record, redemption of a
//!   burned box, the close of a lottery session, the issue of a share.
//! - [`processor`] and [`instruction`]: the dispatcher and what it is asked.
//! - [`types`], [`handle`], [`error`]: records, handles and failures.

pub mod address;
pub mod error;
pub mod handle;
pub mod instruction;
pub mod ledger;
pub mod lifecycle;
pub mod processor;
pub mod store;
pub mod token;
pub mod types;
pub mod utils;

use vstd::prelude::*;

verus! {

/// Namespace of escrow vaults and of the sale records that govern them.
pub const STORAGE: &'static str = "storage";

/// Namespace of the treasury and of the dividend share records.
pub const SHARE_SEED: &'static str = "share";

/// Namespace of plain lottery sessions and of the boxes they issue.
pub const LOTTERY_SEED: &'static str = "lottery";

/// Namespace of multi-slot lottery sessions and of the boxes they issue.
pub const LOTTERY_NFT: &'static str = "nft_lottery";

/// The address, as text, of the one who may issue shares. It is fixed when
/// the engine is deployed.
pub const SHARER: &'static str = "11111111111111111111111111111111";

} // verus!
