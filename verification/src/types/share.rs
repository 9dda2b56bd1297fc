//! Dividend tracking: the counter of issued shares and one record per share.

use crate::address::Address;
use vstd::prelude::*;

verus! {

/// The counter of issued shares.
#[derive(Clone, Copy, Debug, PartialEq, Eq)]
pub struct ShareStorage {
    pub owner: Address,
    pub amount: u64,
    pub total: u64,
}

/// One issued share.
#[derive(Clone, Copy, Debug, PartialEq, Eq)]
pub struct Share {
    pub storage: Address,
    pub mint: Address,
    pub time_create: u64,
    pub last_total: u64,
    pub total_paid: u64,
    pub last_paid: u64,
    pub last_time_paid: u64,
}

/// The arguments of a share issuance.
#[derive(Clone, Copy, Debug, PartialEq, Eq)]
pub struct ShareData {
    pub metaplex: u8,
}

impl ShareStorage {
    /// The number of bytes the counter occupies: an address and two amounts.
    pub const LEN: u64 = 48;

    /// How many shares can be issued.
    pub const LIMIT: u64 = 1000;
}

impl Share {
    /// The number of bytes a share record occupies: two addresses and five
    /// amounts.
    pub const LEN: u64 = 104;
}

} // verus!
