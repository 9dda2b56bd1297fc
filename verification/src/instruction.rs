//! The operations a call can ask for.

use crate::types::nft_lottery::SaveToken;
use crate::types::share::ShareData;
use vstd::prelude::*;

verus! {

/// An operation, with the arguments that are not addresses.
#[derive(Clone, Debug, PartialEq, Eq)]
#[allow(inconsistent_fields)]
pub enum SolInstruction {
    /// Withdrawal on a sale record: purchase, bid, cancellation or close.
    SellWithdrawal,
    /// Closing a lottery session that is fully drawn.
    DelPDA,
    /// Redeeming a burned box.
    SaveToken { data: SaveToken },
    /// Issuing a dividend share.
    CreateShare { data: ShareData },
}

} // verus!
