//! The life of a record: created on first use, closed and swept at its end.

use crate::address::{check_derived, checked, Address, Seeds};
use crate::error::{EngineError, ErrorKind};
use crate::ledger::{paid, swept, written, Ledger, Record, State, Transaction};
use vstd::prelude::*;

verus! {

/// The bytes every account costs besides its data.
pub const ACCOUNT_OVERHEAD: u64 = 128;

/// The largest size an account can have.
pub const MAX_ACCOUNT_SPACE: u64 = 10485760;

/// The largest rent rate for which a minimum balance is computed.
pub const MAX_RENT_RATE: u64 = 1759197129867;

/// The least balance at which an account of `space` bytes is exempt from
/// reclamation under a rent of `rate` per byte; nothing where the size or
/// the rate is beyond what the ledger allows.
pub open spec fn exempt_minimum(rate: u64, space: nat) -> Option<u64> {
    if space > MAX_ACCOUNT_SPACE || rate > MAX_RENT_RATE {
        None
    } else {
        Some(((ACCOUNT_OVERHEAD + space) * rate) as u64)
    }
}

/// Calls `solana_program::rent::Rent::try_minimum_balance` on the rent that
/// `Rent::with_lamports_per_byte` makes of `rate`: nothing for a size over
/// ten mebibytes or a rate over the largest the crate admits, else the rate
/// times the size plus the per-account overhead, which then fits.
#[verifier::external_body]
fn minimum_balance(rate: u64, space: usize) -> (minimum: Option<u64>)
    ensures
        minimum == exempt_minimum(rate, space as nat),
{
    solana_program::rent::Rent::with_lamports_per_byte(rate).try_minimum_balance(space)
}

/// The least balance that exempts an account of `space` bytes.
pub fn rent_exempt_minimum(rate: u64, space: u64) -> (minimum: Option<u64>)
    ensures
        minimum == exempt_minimum(rate, space as nat),
{
    if space > MAX_ACCOUNT_SPACE {
        None
    } else {
        minimum_balance(rate, space as usize)
    }
}

/// The state after `funder` paid the exempt minimum for `space` bytes into
/// `address` and `record` was written there.
pub open spec fn allocated(
    state: State,
    rate: u64,
    address: Address,
    space: u64,
    funder: Address,
    record: Record,
) -> Result<State, EngineError> {
    match exempt_minimum(rate, space as nat) {
        None => Err(EngineError::arithmetic(address)),
        Some(minimum) => match paid(state, funder, address, minimum) {
            Err(e) => Err(e),
            Ok(funded) => Ok(written(funded, address, space, record)),
        },
    }
}

/// The state after `address` was initialized on first use: unchanged where a
/// record is there already; else the address must be the one the seeds
/// derive, the funder pays the exempt minimum for `space` bytes into it, and
/// `initial` is written.
pub open spec fn initialized(
    state: State,
    rate: u64,
    address: Address,
    derived: Option<(Address, u8)>,
    space: u64,
    funder: Address,
    initial: Record,
) -> Result<State, EngineError> {
    if !(state[address].record is Empty) {
        Ok(state)
    } else {
        match checked(address, derived) {
            Err(e) => Err(e),
            Ok(_) => allocated(state, rate, address, space, funder, initial),
        }
    }
}

/// The state after `address` was closed: its whole balance went to
/// `beneficiary` and it holds no record.
pub open spec fn closed(state: State, address: Address, beneficiary: Address) -> Result<
    State,
    EngineError,
> {
    match swept(state, address, beneficiary) {
        Err(e) => Err(e),
        Ok(emptied) => Ok(written(emptied, address, 0, Record::Empty)),
    }
}

impl<'a> Transaction<'a> {
    /// Funds `address` with the exempt minimum for `space` bytes, out of
    /// `funder`, and writes `record` there.
    pub fn allocate(&mut self, address: &Address, space: u64, funder: &Address, record: Record) -> (outcome:
        Result<(), EngineError>)
        ensures
            final(self).base() == old(self).base(),
            match outcome {
                Ok(()) => allocated(
                    old(self)@,
                    old(self).base().rent_rate(),
                    *address,
                    space,
                    *funder,
                    record,
                ) == Ok::<State, EngineError>(final(self)@),
                Err(e) => allocated(
                    old(self)@,
                    old(self).base().rent_rate(),
                    *address,
                    space,
                    *funder,
                    record,
                ) == Err::<State, EngineError>(e),
            },
    {
        let minimum = match rent_exempt_minimum(self.rent(), space) {
            Some(minimum) => minimum,
            None => {
                return Err(EngineError { kind: ErrorKind::Arithmetic, address: *address });
            },
        };
        match self.pay(funder, address, minimum) {
            Err(e) => {
                return Err(e);
            },
            Ok(()) => {},
        }
        self.write(*address, space, record);
        Ok(())
    }

    /// Initializes the record at `address` unless one is there. `derived` is
    /// what the record's seeds derive.
    pub fn initialize_if_empty(
        &mut self,
        address: &Address,
        derived: Option<(Address, u8)>,
        space: u64,
        funder: &Address,
        initial: Record,
    ) -> (outcome: Result<(), EngineError>)
        ensures
            final(self).base() == old(self).base(),
            match outcome {
                Ok(()) => initialized(
                    old(self)@,
                    old(self).base().rent_rate(),
                    *address,
                    derived,
                    space,
                    *funder,
                    initial,
                ) == Ok::<State, EngineError>(final(self)@),
                Err(e) => initialized(
                    old(self)@,
                    old(self).base().rent_rate(),
                    *address,
                    derived,
                    space,
                    *funder,
                    initial,
                ) == Err::<State, EngineError>(e),
            },
    {
        if !self.is_empty(address) {
            return Ok(());
        }
        match check_derived(address, derived) {
            Err(e) => {
                return Err(e);
            },
            Ok(_) => {},
        }
        self.allocate(address, space, funder, initial)
    }

    /// Moves the whole balance of `address` to `beneficiary` and empties the
    /// record. Whether the record may end is for the caller to have settled.
    pub fn close_and_sweep(&mut self, address: &Address, beneficiary: &Address) -> (outcome:
        Result<(), EngineError>)
        ensures
            final(self).base() == old(self).base(),
            match outcome {
                Ok(()) => closed(old(self)@, *address, *beneficiary) == Ok::<State, EngineError>(
                    final(self)@,
                ),
                Err(e) => closed(old(self)@, *address, *beneficiary) == Err::<State, EngineError>(
                    e,
                ),
            },
    {
        match self.sweep(address, beneficiary) {
            Err(e) => {
                return Err(e);
            },
            Ok(()) => {},
        }
        self.write(*address, 0, Record::Empty);
        Ok(())
    }
}

/// Creates the record at `address` on first use: where it is empty, `funder`
/// pays the exempt minimum for `space` bytes and `initial` is written; where
/// it is populated, nothing happens. Fails, and changes nothing, where the
/// address is not the one `seeds` derive or the funding cannot be paid.
pub fn initialize_if_empty(
    ledger: &mut Ledger,
    address: &Address,
    seeds: &Seeds,
    space: u64,
    funder: &Address,
    initial: Record,
) -> (outcome: Result<(), EngineError>)
    ensures
        final(ledger).rent_rate() == old(ledger).rent_rate(),
        match outcome {
            Ok(()) => initialized(
                old(ledger)@,
                old(ledger).rent_rate(),
                *address,
                seeds.derived(),
                space,
                *funder,
                initial,
            ) == Ok::<State, EngineError>(final(ledger)@),
            Err(e) => final(ledger)@ == old(ledger)@ && initialized(
                old(ledger)@,
                old(ledger).rent_rate(),
                *address,
                seeds.derived(),
                space,
                *funder,
                initial,
            ) == Err::<State, EngineError>(e),
        },
{
    let derived = crate::address::derive(seeds);
    let mut tx = Transaction::begin(ledger);
    match tx.initialize_if_empty(address, derived, space, funder, initial) {
        Ok(()) => {
            let staged = tx.finish();
            ledger.commit(staged);
            Ok(())
        },
        Err(e) => Err(e),
    }
}

/// Closes the record at `address` and sweeps its balance to `beneficiary`.
/// Fails, and changes nothing, where the beneficiary cannot hold the sum.
pub fn close_and_sweep(ledger: &mut Ledger, address: &Address, beneficiary: &Address) -> (outcome:
    Result<(), EngineError>)
    ensures
        final(ledger).rent_rate() == old(ledger).rent_rate(),
        match outcome {
            Ok(()) => closed(old(ledger)@, *address, *beneficiary) == Ok::<State, EngineError>(
                final(ledger)@,
            ),
            Err(e) => final(ledger)@ == old(ledger)@ && closed(
                old(ledger)@,
                *address,
                *beneficiary,
            ) == Err::<State, EngineError>(e),
        },
{
    let mut tx = Transaction::begin(ledger);
    match tx.close_and_sweep(address, beneficiary) {
        Ok(()) => {
            let staged = tx.finish();
            ledger.commit(staged);
            Ok(())
        },
        Err(e) => Err(e),
    }
}

} // verus!
