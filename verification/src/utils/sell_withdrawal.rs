//! Withdrawal on a sale record: the purchase of a plain sale, and the bid,
//! the cancellation and the close of an auction.

use crate::address::{check_derived, checked, derivation, Address, Seeds};
use crate::error::{EngineError, ErrorKind};
use crate::handle::AccountHandle;
use crate::ledger::{paid, written, Ledger, Record, State, Transaction};
use crate::lifecycle::{closed, exempt_minimum};
use crate::token::transfer_token_seed::token_released;
use crate::types::sell::{Route, Sell, FLAT_CANCEL_FEE};
use crate::types::token::TokenAccount;
use crate::{SHARE_SEED, STORAGE};
use vstd::prelude::*;

verus! {

/// The handles of a withdrawal, by role.
#[derive(Clone, Copy, Debug, PartialEq, Eq)]
pub struct Withdrawal {
    /// The identity of the token on sale.
    pub mint: Address,
    /// Who listed the token.
    pub seller: Address,
    /// Who asks; must have signed.
    pub buyer: AccountHandle,
    /// The holding the token is to arrive in.
    pub destination: Address,
    /// The vault that escrows the token.
    pub vault: Address,
    /// The sale record.
    pub storage: Address,
    /// The current applicant, as the caller names it.
    pub applicant: Address,
    /// The treasury.
    pub profit_id: Address,
}

/// What the seeds of the treasury, of the vault and of the sale record
/// derive.
#[derive(Clone, Copy, Debug, PartialEq, Eq)]
pub struct SaleAddresses {
    pub treasury: Option<(Address, u8)>,
    pub vault: Option<(Address, u8)>,
    pub storage: Option<(Address, u8)>,
}

/// The sale record a withdrawal is admitted on: the caller signed, the
/// treasury is the derived one, the record exists and names the vault and
/// the seller that were supplied, and the vault and the record are at their
/// derived addresses.
pub open spec fn admitted(state: State, call: Withdrawal, derived: SaleAddresses) -> Result<
    Sell,
    EngineError,
> {
    if !call.buyer.is_signer {
        Err(EngineError::authorization(call.buyer.key))
    } else if checked(call.profit_id, derived.treasury) is Err {
        Err(EngineError::mismatch(call.profit_id))
    } else {
        match state[call.storage].record {
            Record::Sale(record) => if record.vault != call.vault {
                Err(EngineError::mismatch(call.vault))
            } else if record.seller != call.seller {
                Err(EngineError::mismatch(call.seller))
            } else if checked(call.vault, derived.vault) is Err {
                Err(EngineError::mismatch(call.vault))
            } else if checked(call.storage, derived.storage) is Err {
                Err(EngineError::mismatch(call.storage))
            } else {
                Ok(record)
            },
            _ => Err(EngineError::state(call.storage)),
        }
    }
}

/// The state after the buyer paid for a plain sale: the fee to the treasury
/// and, on top of it, the full price to the seller. A seller who takes the
/// token back pays nothing.
pub open spec fn price_paid(state: State, call: Withdrawal, record: Sell) -> Result<
    State,
    EngineError,
> {
    if record.seller == call.buyer.key {
        Ok(state)
    } else {
        match paid(state, call.buyer.key, call.profit_id, record.fee()) {
            Err(e) => Err(e),
            Ok(charged) => paid(charged, call.buyer.key, call.seller, record.price),
        }
    }
}

/// The state after a plain sale was settled: the buyer paid, the token went
/// from the vault to the destination, which must then be a holding of the
/// buyer, and the vault and the record were closed, what was left in them
/// swept to the treasury.
pub open spec fn purchased(
    state: State,
    rate: u64,
    call: Withdrawal,
    record: Sell,
    derived: SaleAddresses,
) -> Result<State, EngineError> {
    match price_paid(state, call, record) {
        Err(e) => Err(e),
        Ok(settled) => match token_released(
            settled,
            rate,
            call.buyer.key,
            call.buyer.key,
            call.mint,
            call.vault,
            call.destination,
            call.profit_id,
            derived.vault,
        ) {
            Err(e) => Err(e),
            Ok(delivered) => match delivered[call.destination].record {
                Record::Holding(holding) => if holding.owner != call.buyer.key {
                    Err(EngineError::state(call.destination))
                } else {
                    closed(delivered, call.storage, call.profit_id)
                },
                _ => Err(EngineError::state(call.destination)),
            },
        },
    }
}

/// Who the token of a closing auction is owed to: the highest bidder, or the
/// seller where nobody bid.
pub open spec fn winner(record: Sell) -> Address {
    if record.has_bidder() {
        record.applicant
    } else {
        record.seller
    }
}

/// The state after the seller closed the auction: the token went from the
/// vault to the destination, whose owner must be the winner; where somebody
/// bid, the seller received the price less the fee out of the record's
/// balance; the record was closed and the rest swept to the treasury.
pub open spec fn auction_closed(
    state: State,
    rate: u64,
    call: Withdrawal,
    record: Sell,
    derived: SaleAddresses,
) -> Result<State, EngineError> {
    match token_released(
        state,
        rate,
        call.buyer.key,
        call.applicant,
        call.mint,
        call.vault,
        call.destination,
        call.profit_id,
        derived.vault,
    ) {
        Err(e) => Err(e),
        Ok(delivered) => match delivered[call.destination].record {
            Record::Holding(holding) => if holding.owner != winner(record) {
                Err(EngineError::state(call.destination))
            } else if record.has_bidder() {
                match paid(delivered, call.storage, call.seller, record.proceeds()) {
                    Err(e) => Err(e),
                    Ok(settled) => closed(settled, call.storage, call.profit_id),
                }
            } else {
                closed(delivered, call.storage, call.profit_id)
            },
            _ => Err(EngineError::state(call.destination)),
        },
    }
}

/// The state after the highest bidder withdrew: the bid, less the flat fee,
/// went back out of the record's balance, and the record is listed anew. A
/// price that does not cover the flat fee is refused before anything else.
pub open spec fn bid_cancelled(state: State, call: Withdrawal, record: Sell) -> Result<
    State,
    EngineError,
> {
    if record.refund() < 0 {
        Err(EngineError::arithmetic(call.storage))
    } else if call.applicant != record.applicant {
        Err(EngineError::mismatch(call.applicant))
    } else {
        match paid(state, call.storage, record.applicant, record.refund() as u64) {
            Err(e) => Err(e),
            Ok(refunded) => Ok(
                written(
                    refunded,
                    call.storage,
                    refunded[call.storage].space,
                    Record::Sale(record.restarted()),
                ),
            ),
        }
    }
}

/// The state after the previous bidder, if there was one, got the bid back,
/// less the flat fee, out of the record's balance.
pub open spec fn outbid_refunded(state: State, call: Withdrawal, record: Sell) -> Result<
    State,
    EngineError,
> {
    if !record.has_bidder() {
        Ok(state)
    } else if record.refund() < 0 {
        Err(EngineError::arithmetic(call.storage))
    } else {
        paid(state, call.storage, record.applicant, record.refund() as u64)
    }
}

/// The state after a new bid: the bidder paid the next price into the
/// record's balance, the previous bidder was refunded, and the record names
/// the bidder at the new price, with one bid more. Where a refund is owed
/// and the price does not cover the flat fee, the bid is refused before
/// anything else.
pub open spec fn bid_placed(state: State, call: Withdrawal, record: Sell) -> Result<
    State,
    EngineError,
> {
    if record.has_bidder() && record.refund() < 0 {
        Err(EngineError::arithmetic(call.storage))
    } else if call.applicant != record.applicant {
        Err(EngineError::mismatch(call.applicant))
    } else if record.next_price() > u64::MAX || record.bets == u64::MAX {
        Err(EngineError::arithmetic(call.storage))
    } else {
        match paid(state, call.buyer.key, call.storage, record.next_price() as u64) {
            Err(e) => Err(e),
            Ok(funded) => match outbid_refunded(funded, call, record) {
                Err(e) => Err(e),
                Ok(refunded) => Ok(
                    written(
                        refunded,
                        call.storage,
                        refunded[call.storage].space,
                        Record::Sale(
                            record.outbid_by(call.buyer.key, record.next_price() as u64),
                        ),
                    ),
                ),
            },
        }
    }
}

/// The state after a withdrawal, whatever its route.
pub open spec fn withdrawn(state: State, rate: u64, call: Withdrawal, derived: SaleAddresses) -> Result<
    State,
    EngineError,
> {
    match admitted(state, call, derived) {
        Err(e) => Err(e),
        Ok(record) => match record.route(call.buyer.key) {
            Route::Purchase => purchased(state, rate, call, record, derived),
            Route::Close => auction_closed(state, rate, call, record, derived),
            Route::Cancel => bid_cancelled(state, call, record),
            Route::Bid => bid_placed(state, call, record),
        },
    }
}

/// What the seeds of a withdrawal derive under `program`.
pub open spec fn sale_addresses(program: Address, call: Withdrawal) -> SaleAddresses {
    SaleAddresses {
        treasury: derivation(SHARE_SEED@, program, program),
        vault: derivation(STORAGE@, program, call.mint),
        storage: derivation(STORAGE@, program, call.vault),
    }
}

/// A withdrawal together with what its seeds derive.
pub struct PlacedBid {
    pub call: Withdrawal,
    pub derived: SaleAddresses,
}

/// The withdrawal is a bid and it is accepted: it is admitted on a record
/// that routes the caller to a bid, and it succeeds.
pub open spec fn accepted_bid(state: State, rate: u64, bid: PlacedBid) -> bool {
    &&& admitted(state, bid.call, bid.derived) matches Ok(record)
    &&& record.route(bid.call.buyer.key) == Route::Bid
    &&& withdrawn(state, rate, bid.call, bid.derived) is Ok
}

/// The state after the bids of `bids` were placed one after the other on
/// the sale record at `storage`; nothing where one of them is no accepted
/// bid on that record.
pub open spec fn after_bids(state: State, rate: u64, storage: Address, bids: Seq<PlacedBid>) -> Option<
    State,
>
    decreases bids.len(),
{
    if bids.len() == 0 {
        Some(state)
    } else {
        match after_bids(state, rate, storage, bids.drop_last()) {
            None => None,
            Some(before) => if bids.last().call.storage == storage && accepted_bid(
                before,
                rate,
                bids.last(),
            ) {
                Some(withdrawn(before, rate, bids.last().call, bids.last().derived)->Ok_0)
            } else {
                None
            },
        }
    }
}

/// The sale record at `storage`.
pub open spec fn sale_at(state: State, storage: Address) -> Sell {
    state[storage].record->Sale_0
}

/// An accepted bid leaves a sale record at its address whose price is the
/// next price of the record before, which is not below the price before,
/// whose bid count is one more, and whose applicant is the bidder.
pub proof fn lemma_accepted_bid(state: State, rate: u64, bid: PlacedBid)
    requires
        accepted_bid(state, rate, bid),
    ensures
        state[bid.call.storage].record is Sale,
        withdrawn(state, rate, bid.call, bid.derived)->Ok_0[bid.call.storage].record is Sale,
        ({
            let before = sale_at(state, bid.call.storage);
            let after = sale_at(
                withdrawn(state, rate, bid.call, bid.derived)->Ok_0,
                bid.call.storage,
            );
            &&& after.price == before.next_price()
            &&& after.price >= before.price
            &&& after.bets == before.bets + 1
            &&& after.applicant == bid.call.buyer.key
            &&& after.start_price == before.start_price
            &&& after.seller == before.seller
            &&& before.well_formed() ==> after.well_formed()
        }),
{
}

/// Over any sequence of accepted bids on one sale record the price never
/// falls and the bid count grows by exactly one per bid: after every prefix
/// of the sequence the record is a sale record, its price lies between the
/// price at the start and the price at the end, and its bid count is the
/// count at the start plus the number of bids placed so far.
pub proof fn lemma_bids_raise_price(
    state: State,
    rate: u64,
    storage: Address,
    bids: Seq<PlacedBid>,
)
    requires
        state[storage].record is Sale,
        after_bids(state, rate, storage, bids) is Some,
    ensures
        after_bids(state, rate, storage, bids)->Some_0[storage].record is Sale,
        sale_at(after_bids(state, rate, storage, bids)->Some_0, storage).bets == sale_at(
            state,
            storage,
        ).bets + bids.len(),
        forall|k: int|
            0 <= k <= bids.len() ==> {
                &&& #[trigger] after_bids(state, rate, storage, bids.subrange(0, k)) matches Some(
                    middle,
                )
                &&& middle[storage].record is Sale
                &&& sale_at(middle, storage).bets == sale_at(state, storage).bets + k
                &&& sale_at(state, storage).price <= sale_at(middle, storage).price
                &&& sale_at(middle, storage).price <= sale_at(
                    after_bids(state, rate, storage, bids)->Some_0,
                    storage,
                ).price
            },
    decreases bids.len(),
{
    if bids.len() == 0 {
        assert forall|k: int| 0 <= k <= bids.len() implies bids.subrange(0, k) =~= bids by {}
    } else {
        let earlier = bids.drop_last();
        let before = after_bids(state, rate, storage, earlier)->Some_0;
        lemma_bids_raise_price(state, rate, storage, earlier);
        lemma_accepted_bid(before, rate, bids.last());
        assert forall|k: int| 0 <= k <= bids.len() implies {
            &&& #[trigger] after_bids(state, rate, storage, bids.subrange(0, k)) matches Some(
                middle,
            )
            &&& middle[storage].record is Sale
            &&& sale_at(middle, storage).bets == sale_at(state, storage).bets + k
            &&& sale_at(state, storage).price <= sale_at(middle, storage).price
            &&& sale_at(middle, storage).price <= sale_at(
                after_bids(state, rate, storage, bids)->Some_0,
                storage,
            ).price
        } by {
            if k == bids.len() {
                assert(bids.subrange(0, k) =~= bids);
                assert(earlier.subrange(0, earlier.len() as int) =~= earlier);
            } else {
                assert(bids.subrange(0, k) =~= earlier.subrange(0, k));
            }
        }
    }
}

/// A withdrawal keeps the invariant of the sale record: where it succeeds on
/// a well-formed record, the address of the record afterwards holds a
/// well-formed sale record with the same seller, vault and start price, or,
/// after a purchase or a close, nothing.
pub proof fn lemma_withdrawal_keeps_invariant(
    state: State,
    rate: u64,
    call: Withdrawal,
    derived: SaleAddresses,
)
    requires
        withdrawn(state, rate, call, derived) is Ok,
        sale_at(state, call.storage).well_formed(),
    ensures
        state[call.storage].record is Sale,
        ({
            let before = sale_at(state, call.storage);
            let after = withdrawn(state, rate, call, derived)->Ok_0[call.storage].record;
            match before.route(call.buyer.key) {
                Route::Purchase | Route::Close => after is Empty,
                Route::Cancel | Route::Bid => {
                    &&& after matches Record::Sale(record)
                    &&& record.well_formed()
                    &&& record.seller == before.seller
                    &&& record.vault == before.vault
                    &&& record.start_price == before.start_price
                    &&& record.auction == before.auction
                },
            }
        }),
{
}

/// An accepted bid on a record that somebody has bid on refunds the outbid
/// party exactly the price before less the flat fee, which is then not
/// negative. This is stated for an outbid party other than the sale
/// record's own address.
pub proof fn lemma_outbid_refund(state: State, rate: u64, bid: PlacedBid)
    requires
        accepted_bid(state, rate, bid),
        sale_at(state, bid.call.storage).has_bidder(),
        sale_at(state, bid.call.storage).applicant != bid.call.storage,
    ensures
        sale_at(state, bid.call.storage).price >= FLAT_CANCEL_FEE,
        ({
            let outbid = sale_at(state, bid.call.storage).applicant;
            let after = withdrawn(state, rate, bid.call, bid.derived)->Ok_0;
            after[outbid].balance == state[outbid].balance + sale_at(
                state,
                bid.call.storage,
            ).price - FLAT_CANCEL_FEE
        }),
{
}

/// No negative refund is ever paid: on an auction that somebody has bid on
/// and whose price does not cover the flat fee, every admitted withdrawal
/// by anybody but the seller, a new bid as well as the cancellation of the
/// highest bid, fails with an arithmetic error that names the sale record,
/// whatever handle is given for the applicant.
pub proof fn lemma_negative_refund_fails(
    state: State,
    rate: u64,
    call: Withdrawal,
    derived: SaleAddresses,
)
    requires
        admitted(state, call, derived) matches Ok(record) && record.is_auction()
            && record.seller != call.buyer.key && record.has_bidder() && record.price
            < FLAT_CANCEL_FEE,
    ensures
        withdrawn(state, rate, call, derived) == Err::<State, EngineError>(
            EngineError::arithmetic(call.storage),
        ),
{
}

/// A plain sale that succeeds delivers the token to the buyer and closes
/// what the sale was kept in: the vault was at the address its seeds derive
/// and held exactly one unit of the token in its own name; afterwards the
/// destination is a holding of the token that the buyer owns, with one unit
/// more than it held before, and the vault and the sale record hold no
/// record and, unless they are the treasury itself, no balance.
pub proof fn lemma_purchase_delivers(
    state: State,
    rate: u64,
    call: Withdrawal,
    derived: SaleAddresses,
)
    requires
        withdrawn(state, rate, call, derived) is Ok,
        !sale_at(state, call.storage).is_auction(),
    ensures
        checked(call.vault, derived.vault) is Ok,
        state[call.vault].record == Record::Holding(
            TokenAccount { mint: call.mint, owner: call.vault, amount: 1 },
        ),
        ({
            let after = withdrawn(state, rate, call, derived)->Ok_0;
            let held: int = match state[call.destination].record {
                Record::Holding(holding) => holding.amount as int,
                _ => 0,
            };
            &&& after[call.destination].record == Record::Holding(
                TokenAccount { mint: call.mint, owner: call.buyer.key, amount: (held + 1) as u64 },
            )
            &&& held < u64::MAX
            &&& after[call.vault].record is Empty
            &&& after[call.storage].record is Empty
            &&& call.vault != call.profit_id ==> after[call.vault].balance == 0
            &&& call.storage != call.profit_id ==> after[call.storage].balance == 0
        }),
{
}

/// An auction that its seller closes delivers the token to the winner and
/// closes what the auction was kept in: afterwards the destination is a
/// holding of the token that the highest bidder owns, or the seller where
/// nobody bid, and the vault and the sale record hold no record and, unless
/// they are the treasury or the seller, no balance. Where somebody bid, a
/// seller who is no other party of the call has received the price less the
/// fee of one hundredth, and has funded the destination where it is new.
pub proof fn lemma_close_delivers(state: State, rate: u64, call: Withdrawal, derived: SaleAddresses)
    requires
        withdrawn(state, rate, call, derived) is Ok,
        sale_at(state, call.storage).is_auction(),
        sale_at(state, call.storage).seller == call.buyer.key,
    ensures
        checked(call.vault, derived.vault) is Ok,
        ({
            let before = sale_at(state, call.storage);
            let after = withdrawn(state, rate, call, derived)->Ok_0;
            let funding: int = if state[call.destination].record is Empty {
                exempt_minimum(rate, TokenAccount::LEN as nat)->Some_0 as int
            } else {
                0
            };
            &&& after[call.destination].record matches Record::Holding(holding)
            &&& holding.owner == winner(before)
            &&& holding.mint == call.mint
            &&& after[call.vault].record is Empty
            &&& after[call.storage].record is Empty
            &&& call.vault != call.profit_id && call.vault != call.seller
                ==> after[call.vault].balance == 0
            &&& call.storage != call.profit_id ==> after[call.storage].balance == 0
            &&& before.has_bidder() && call.seller != call.storage && call.seller
                != call.profit_id && call.seller != call.vault && call.seller
                != call.destination ==> after[call.seller].balance == state[call.seller].balance
                + before.price - before.price / 100 - funding
        }),
{
}

/// A plain sale between parties that are all different settles to the
/// unit: for a buyer, a seller, a treasury, a vault, a sale record and a
/// destination of which no two are the same address, the buyer pays the
/// price to the seller and, on top of it, the fee of one hundredth to the
/// treasury, and funds the destination where it is new; the vault and the
/// sale record end with no balance, and everything they held is in the
/// treasury.
pub proof fn lemma_purchase_settles(
    state: State,
    rate: u64,
    call: Withdrawal,
    derived: SaleAddresses,
)
    requires
        withdrawn(state, rate, call, derived) is Ok,
        !sale_at(state, call.storage).is_auction(),
        call.buyer.key != call.seller,
        call.buyer.key != call.profit_id,
        call.buyer.key != call.vault,
        call.buyer.key != call.storage,
        call.buyer.key != call.destination,
        call.seller != call.profit_id,
        call.seller != call.vault,
        call.seller != call.storage,
        call.seller != call.destination,
        call.profit_id != call.vault,
        call.profit_id != call.storage,
        call.profit_id != call.destination,
    ensures
        ({
            let before = sale_at(state, call.storage);
            let after = withdrawn(state, rate, call, derived)->Ok_0;
            let funding: int = if state[call.destination].record is Empty {
                exempt_minimum(rate, TokenAccount::LEN as nat)->Some_0 as int
            } else {
                0
            };
            &&& after[call.seller].balance == state[call.seller].balance + before.price
            &&& after[call.buyer.key].balance == state[call.buyer.key].balance - before.price
                - before.price / 100 - funding
            &&& after[call.profit_id].balance == state[call.profit_id].balance + before.price
                / 100 + state[call.vault].balance + state[call.storage].balance
            &&& after[call.destination].balance == state[call.destination].balance + funding
            &&& after[call.vault].balance == 0
            &&& after[call.storage].balance == 0
        }),
{
}

/// A cancelled bid refunds the bidder exactly the price less the flat fee,
/// which is then not negative, and lists the record anew. The refund is
/// stated for a bidder other than the sale record's own address.
pub proof fn lemma_cancel_refund(state: State, call: Withdrawal, record: Sell)
    requires
        bid_cancelled(state, call, record) is Ok,
    ensures
        record.price >= FLAT_CANCEL_FEE,
        record.restarted().well_formed(),
        bid_cancelled(state, call, record)->Ok_0[call.storage].record == Record::Sale(
            record.restarted(),
        ),
        record.applicant != call.storage ==> bid_cancelled(
            state,
            call,
            record,
        )->Ok_0[record.applicant].balance == state[record.applicant].balance + record.price
            - FLAT_CANCEL_FEE,
{
}

impl<'a> Transaction<'a> {
    /// Admits a withdrawal and hands out the sale record it is about.
    pub fn admit_withdrawal(&self, call: &Withdrawal, derived: &SaleAddresses) -> (outcome: Result<
        Sell,
        EngineError,
    >)
        ensures
            outcome == admitted(self@, *call, *derived),
    {
        if !call.buyer.is_signer {
            return Err(EngineError { kind: ErrorKind::Authorization, address: call.buyer.key });
        }
        if check_derived(&call.profit_id, derived.treasury).is_err() {
            return Err(EngineError { kind: ErrorKind::AddressMismatch, address: call.profit_id });
        }
        let record: Sell = match self.record(&call.storage) {
            Some(Record::Sale(record)) => *record,
            _ => {
                return Err(EngineError { kind: ErrorKind::State, address: call.storage });
            },
        };
        if record.vault != call.vault {
            return Err(EngineError { kind: ErrorKind::AddressMismatch, address: call.vault });
        }
        if record.seller != call.seller {
            return Err(EngineError { kind: ErrorKind::AddressMismatch, address: call.seller });
        }
        if check_derived(&call.vault, derived.vault).is_err() {
            return Err(EngineError { kind: ErrorKind::AddressMismatch, address: call.vault });
        }
        if check_derived(&call.storage, derived.storage).is_err() {
            return Err(EngineError { kind: ErrorKind::AddressMismatch, address: call.storage });
        }
        Ok(record)
    }

    /// Settles a plain sale.
    pub fn purchase(&mut self, call: &Withdrawal, record: &Sell, derived: &SaleAddresses) -> (outcome:
        Result<(), EngineError>)
        ensures
            final(self).base() == old(self).base(),
            match outcome {
                Ok(()) => purchased(
                    old(self)@,
                    old(self).base().rent_rate(),
                    *call,
                    *record,
                    *derived,
                ) == Ok::<State, EngineError>(final(self)@),
                Err(e) => purchased(
                    old(self)@,
                    old(self).base().rent_rate(),
                    *call,
                    *record,
                    *derived,
                ) == Err::<State, EngineError>(e),
            },
    {
        if record.seller != call.buyer.key {
            match self.pay(&call.buyer.key, &call.profit_id, record.price / 100) {
                Err(e) => {
                    return Err(e);
                },
                Ok(()) => {},
            }
            match self.pay(&call.buyer.key, &call.seller, record.price) {
                Err(e) => {
                    return Err(e);
                },
                Ok(()) => {},
            }
        }
        match self.transfer_token_seed(
            &call.buyer.key,
            &call.buyer.key,
            &call.mint,
            &call.vault,
            &call.destination,
            &call.profit_id,
            derived.vault,
        ) {
            Err(e) => {
                return Err(e);
            },
            Ok(()) => {},
        }
        let owned = match self.record(&call.destination) {
            Some(Record::Holding(holding)) => holding.owner == call.buyer.key,
            _ => false,
        };
        if !owned {
            return Err(EngineError { kind: ErrorKind::State, address: call.destination });
        }
        self.close_and_sweep(&call.storage, &call.profit_id)
    }

    /// Closes an auction for its seller.
    pub fn close_auction(&mut self, call: &Withdrawal, record: &Sell, derived: &SaleAddresses) -> (outcome:
        Result<(), EngineError>)
        ensures
            final(self).base() == old(self).base(),
            match outcome {
                Ok(()) => auction_closed(
                    old(self)@,
                    old(self).base().rent_rate(),
                    *call,
                    *record,
                    *derived,
                ) == Ok::<State, EngineError>(final(self)@),
                Err(e) => auction_closed(
                    old(self)@,
                    old(self).base().rent_rate(),
                    *call,
                    *record,
                    *derived,
                ) == Err::<State, EngineError>(e),
            },
    {
        match self.transfer_token_seed(
            &call.buyer.key,
            &call.applicant,
            &call.mint,
            &call.vault,
            &call.destination,
            &call.profit_id,
            derived.vault,
        ) {
            Err(e) => {
                return Err(e);
            },
            Ok(()) => {},
        }
        let has_bidder = record.applicant != record.seller;
        let expected = if has_bidder {
            record.applicant
        } else {
            record.seller
        };
        let owned = match self.record(&call.destination) {
            Some(Record::Holding(holding)) => holding.owner == expected,
            _ => false,
        };
        if !owned {
            return Err(EngineError { kind: ErrorKind::State, address: call.destination });
        }
        if has_bidder {
            let proceeds = record.price - record.price / 100;
            match self.pay(&call.storage, &call.seller, proceeds) {
                Err(e) => {
                    return Err(e);
                },
                Ok(()) => {},
            }
        }
        self.close_and_sweep(&call.storage, &call.profit_id)
    }

    /// Withdraws the highest bid for its bidder.
    pub fn cancel_bid(&mut self, call: &Withdrawal, record: &Sell) -> (outcome: Result<
        (),
        EngineError,
    >)
        ensures
            final(self).base() == old(self).base(),
            match outcome {
                Ok(()) => bid_cancelled(old(self)@, *call, *record) == Ok::<State, EngineError>(
                    final(self)@,
                ),
                Err(e) => bid_cancelled(old(self)@, *call, *record) == Err::<State, EngineError>(
                    e,
                ),
            },
    {
        let refund = match record.bid_refund() {
            Some(refund) => refund,
            None => {
                return Err(EngineError { kind: ErrorKind::Arithmetic, address: call.storage });
            },
        };
        if call.applicant != record.applicant {
            return Err(EngineError { kind: ErrorKind::AddressMismatch, address: call.applicant });
        }
        match self.pay(&call.storage, &record.applicant, refund) {
            Err(e) => {
                return Err(e);
            },
            Ok(()) => {},
        }
        let space = self.space(&call.storage);
        let restarted = Sell {
            applicant: record.seller,
            auction: record.auction,
            bets: 0,
            price: record.start_price,
            seller: record.seller,
            start_price: record.start_price,
            vault: record.vault,
        };
        self.write(call.storage, space, Record::Sale(restarted));
        Ok(())
    }

    /// Places a bid for the caller.
    pub fn place_bid(&mut self, call: &Withdrawal, record: &Sell) -> (outcome: Result<
        (),
        EngineError,
    >)
        ensures
            final(self).base() == old(self).base(),
            match outcome {
                Ok(()) => bid_placed(old(self)@, *call, *record) == Ok::<State, EngineError>(
                    final(self)@,
                ),
                Err(e) => bid_placed(old(self)@, *call, *record) == Err::<State, EngineError>(e),
            },
    {
        let owed: Option<u64> = if record.seller != record.applicant {
            match record.bid_refund() {
                Some(refund) => Some(refund),
                None => {
                    return Err(EngineError { kind: ErrorKind::Arithmetic, address: call.storage });
                },
            }
        } else {
            None
        };
        if call.applicant != record.applicant {
            return Err(EngineError { kind: ErrorKind::AddressMismatch, address: call.applicant });
        }
        let price = match record.bid_price() {
            Some(price) => price,
            None => {
                return Err(EngineError { kind: ErrorKind::Arithmetic, address: call.storage });
            },
        };
        let bets = match record.bets.checked_add(1) {
            Some(bets) => bets,
            None => {
                return Err(EngineError { kind: ErrorKind::Arithmetic, address: call.storage });
            },
        };
        match self.pay(&call.buyer.key, &call.storage, price) {
            Err(e) => {
                return Err(e);
            },
            Ok(()) => {},
        }
        match owed {
            Some(refund) => {
                match self.pay(&call.storage, &record.applicant, refund) {
                    Err(e) => {
                        return Err(e);
                    },
                    Ok(()) => {},
                }
            },
            None => {},
        }
        let space = self.space(&call.storage);
        let raised = Sell {
            applicant: call.buyer.key,
            auction: record.auction,
            bets,
            price,
            seller: record.seller,
            start_price: record.start_price,
            vault: record.vault,
        };
        self.write(call.storage, space, Record::Sale(raised));
        Ok(())
    }

    /// Carries out a withdrawal. `derived` is what the seeds of the
    /// treasury, of the vault and of the sale record derive.
    pub fn sell_withdrawal(&mut self, call: &Withdrawal, derived: &SaleAddresses) -> (outcome:
        Result<(), EngineError>)
        ensures
            final(self).base() == old(self).base(),
            match outcome {
                Ok(()) => withdrawn(old(self)@, old(self).base().rent_rate(), *call, *derived)
                    == Ok::<State, EngineError>(final(self)@),
                Err(e) => withdrawn(old(self)@, old(self).base().rent_rate(), *call, *derived)
                    == Err::<State, EngineError>(e),
            },
    {
        let record = match self.admit_withdrawal(call, derived) {
            Ok(record) => record,
            Err(e) => {
                return Err(e);
            },
        };
        match record.classify(&call.buyer.key) {
            Route::Purchase => self.purchase(call, &record, derived),
            Route::Close => self.close_auction(call, &record, derived),
            Route::Cancel => self.cancel_bid(call, &record),
            Route::Bid => self.place_bid(call, &record),
        }
    }
}

/// Derives the addresses a withdrawal is held against.
pub fn derive_sale_addresses(program_id: &Address, call: &Withdrawal) -> (derived: SaleAddresses)
    ensures
        derived == sale_addresses(*program_id, *call),
{
    let treasury = crate::address::derive(
        &Seeds { namespace: SHARE_SEED, issuer: *program_id, discriminant: *program_id },
    );
    let vault = crate::address::derive(
        &Seeds { namespace: STORAGE, issuer: *program_id, discriminant: call.mint },
    );
    let storage = crate::address::derive(
        &Seeds { namespace: STORAGE, issuer: *program_id, discriminant: call.vault },
    );
    SaleAddresses { treasury, vault, storage }
}

/// Withdrawal on the sale record `storage`, asked by `buyer`.
///
/// On a plain sale the buyer pays the fee to the treasury and the price to
/// the seller and receives the token in a holding of the buyer's own. On an auction the seller closes it,
/// the highest bidder withdraws the bid, and anybody else bids. Every
/// address is derived again before it is trusted. On failure nothing
/// changes.
pub fn process_sell_withdrawal(
    ledger: &mut Ledger,
    program_id: &Address,
    mint: &AccountHandle,
    seller: &AccountHandle,
    buyer: &AccountHandle,
    token_transfer_account: &AccountHandle,
    vault: &AccountHandle,
    storage: &AccountHandle,
    applicant: &AccountHandle,
    profit_id: &AccountHandle,
) -> (outcome: Result<(), EngineError>)
    ensures
        final(ledger).rent_rate() == old(ledger).rent_rate(),
        ({
            let call = Withdrawal {
                mint: mint.key,
                seller: seller.key,
                buyer: *buyer,
                destination: token_transfer_account.key,
                vault: vault.key,
                storage: storage.key,
                applicant: applicant.key,
                profit_id: profit_id.key,
            };
            let expected = withdrawn(
                old(ledger)@,
                old(ledger).rent_rate(),
                call,
                sale_addresses(*program_id, call),
            );
            match outcome {
                Ok(()) => expected == Ok::<State, EngineError>(final(ledger)@),
                Err(e) => final(ledger)@ == old(ledger)@ && expected == Err::<State, EngineError>(e),
            }
        }),
{
    let call = Withdrawal {
        mint: mint.key,
        seller: seller.key,
        buyer: *buyer,
        destination: token_transfer_account.key,
        vault: vault.key,
        storage: storage.key,
        applicant: applicant.key,
        profit_id: profit_id.key,
    };
    let derived = derive_sale_addresses(program_id, &call);
    let mut tx = Transaction::begin(ledger);
    match tx.sell_withdrawal(&call, &derived) {
        Ok(()) => {
            let staged = tx.finish();
            ledger.commit(staged);
            Ok(())
        },
        Err(e) => Err(e),
    }
}

} // verus!
