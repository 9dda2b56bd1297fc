//! The record of a token offered for sale or put up for auction.

use crate::address::Address;
use vstd::prelude::*;

verus! {

/// What is withheld from a bid when it is refunded or cancelled: a fixed
/// amount, whatever the bid.
pub const FLAT_CANCEL_FEE: u64 = 1000000;

/// What a withdrawal on a sale record amounts to, by the record and by who
/// asks.
#[derive(Clone, Copy, Debug, PartialEq, Eq)]
pub enum Route {
    /// A plain sale: the caller takes the token at the price.
    Purchase,
    /// The seller closes the auction.
    Close,
    /// The highest bidder withdraws the bid.
    Cancel,
    /// Somebody else bids.
    Bid,
}

/// A sale record.
///
/// While nobody has bid, the applicant is the seller and the bid count is
/// zero; the price never lies below the start price.
#[derive(Clone, Copy, Debug, PartialEq, Eq)]
pub struct Sell {
    /// The current highest bidder, or the seller while there is none.
    pub applicant: Address,
    /// Zero for a plain sale, anything else for an auction.
    pub auction: u8,
    /// The number of bids accepted since the listing or the last restart.
    pub bets: u64,
    /// The current price.
    pub price: u64,
    /// Who listed the token.
    pub seller: Address,
    /// The price the listing started at.
    pub start_price: u64,
    /// The vault that holds the token.
    pub vault: Address,
}

impl Sell {
    /// The number of bytes a sale record occupies: three addresses, the
    /// auction flag and three amounts.
    pub const LEN: u64 = 121;

    /// The record's invariant.
    pub open spec fn well_formed(&self) -> bool {
        &&& self.price >= self.start_price
        &&& self.applicant == self.seller ==> self.bets == 0
    }

    /// The record is an auction.
    pub open spec fn is_auction(&self) -> bool {
        self.auction != 0
    }

    /// Somebody other than the seller holds the highest bid.
    pub open spec fn has_bidder(&self) -> bool {
        self.applicant != self.seller
    }

    /// The route a withdrawal by `caller` takes.
    pub open spec fn route(&self, caller: Address) -> Route {
        if !self.is_auction() {
            Route::Purchase
        } else if self.seller == caller {
            Route::Close
        } else if self.applicant == caller {
            Route::Cancel
        } else {
            Route::Bid
        }
    }

    /// The fee on the current price: one hundredth, rounded down.
    pub open spec fn fee(&self) -> u64 {
        self.price / 100
    }

    /// What the seller receives when the auction closes on a bid.
    pub open spec fn proceeds(&self) -> u64 {
        (self.price - self.price / 100) as u64
    }

    /// What the next bidder pays: the price, raised by a hundredth once
    /// somebody has bid.
    pub open spec fn next_price(&self) -> int {
        if self.has_bidder() {
            self.price + self.price / 100
        } else {
            self.price as int
        }
    }

    /// What a bidder gets back: the price less the flat fee.
    pub open spec fn refund(&self) -> int {
        self.price - FLAT_CANCEL_FEE
    }

    /// The record after `bidder` bid `price`.
    pub open spec fn outbid_by(&self, bidder: Address, price: u64) -> Sell {
        Sell {
            applicant: bidder,
            auction: self.auction,
            bets: (self.bets + 1) as u64,
            price,
            seller: self.seller,
            start_price: self.start_price,
            vault: self.vault,
        }
    }

    /// The record after the highest bid was withdrawn: listed anew.
    pub open spec fn restarted(&self) -> Sell {
        Sell {
            applicant: self.seller,
            auction: self.auction,
            bets: 0,
            price: self.start_price,
            seller: self.seller,
            start_price: self.start_price,
            vault: self.vault,
        }
    }

    /// Which route a withdrawal by `caller` takes.
    pub fn classify(&self, caller: &Address) -> (route: Route)
        ensures
            route == self.route(*caller),
    {
        if self.auction == 0 {
            Route::Purchase
        } else if self.seller == *caller {
            Route::Close
        } else if self.applicant == *caller {
            Route::Cancel
        } else {
            Route::Bid
        }
    }

    /// The price the next bidder pays, where it fits.
    pub fn bid_price(&self) -> (price: Option<u64>)
        ensures
            match price {
                Some(p) => p == self.next_price(),
                None => self.next_price() > u64::MAX,
            },
    {
        if self.seller != self.applicant {
            self.price.checked_add(self.price / 100)
        } else {
            Some(self.price)
        }
    }

    /// The refund of the current bid, where the price covers the flat fee.
    pub fn bid_refund(&self) -> (refund: Option<u64>)
        ensures
            match refund {
                Some(r) => r == self.refund(),
                None => self.refund() < 0,
            },
    {
        self.price.checked_sub(FLAT_CANCEL_FEE)
    }

    /// A fresh listing by `seller` at `start_price`.
    pub fn listed(seller: Address, vault: Address, auction: u8, start_price: u64) -> (record: Sell)
        ensures
            record == (Sell {
                applicant: seller,
                auction,
                bets: 0,
                price: start_price,
                seller,
                start_price,
                vault,
            }),
            record.well_formed(),
            !record.has_bidder(),
    {
        Sell { applicant: seller, auction, bets: 0, price: start_price, seller, start_price, vault }
    }
}

} // verus!
