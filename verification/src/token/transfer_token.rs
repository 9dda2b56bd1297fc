//! Moving an escrowed token out of a holding that signs for itself.

use crate::address::Address;
use crate::error::{EngineError, ErrorKind};
use crate::handle::AccountHandle;
use crate::ledger::{written, Ledger, Record, State, Transaction};
use crate::lifecycle::{allocated, closed};
use crate::types::token::TokenAccount;
use vstd::prelude::*;

verus! {

/// The destination after one unit of `mint` arrived: a fresh holding of
/// `new_owner` where the account was empty, one unit more where it held the
/// same mint.
pub open spec fn received(
    at: Address,
    before: Record,
    mint: Address,
    new_owner: Address,
) -> Result<TokenAccount, EngineError> {
    match before {
        Record::Empty => Ok(TokenAccount { mint, owner: new_owner, amount: 1 }),
        Record::Holding(holding) => if holding.mint != mint {
            Err(EngineError::service(at))
        } else if holding.amount == u64::MAX {
            Err(EngineError::arithmetic(at))
        } else {
            Ok(
                TokenAccount {
                    mint,
                    owner: holding.owner,
                    amount: (holding.amount + 1) as u64,
                },
            )
        },
        _ => Err(EngineError::service(at)),
    }
}

/// The state after `holding` was delivered to `to`: written over the holding
/// that was there, or into a new account that `payer` funds.
pub open spec fn delivered(
    state: State,
    rate: u64,
    payer: Address,
    to: Address,
    holding: TokenAccount,
) -> Result<State, EngineError> {
    if state[to].record is Empty {
        allocated(state, rate, to, TokenAccount::LEN, payer, Record::Holding(holding))
    } else {
        Ok(written(state, to, TokenAccount::LEN, Record::Holding(holding)))
    }
}

/// The state after the one unit of `mint` that `from` escrows went to `to`:
/// `from` must hold exactly one unit of `mint` in its own name; `to` receives
/// it, as a fresh holding of `new_owner`, funded by `payer`, where it was
/// empty; `from` is closed and its balance swept to `treasury`.
pub open spec fn token_moved(
    state: State,
    rate: u64,
    payer: Address,
    mint: Address,
    from: Address,
    to: Address,
    new_owner: Address,
    treasury: Address,
) -> Result<State, EngineError> {
    match state[from].record {
        Record::Holding(source) => if source.mint != mint || source.owner != from || source.amount
            != 1 || from == to {
            Err(EngineError::service(from))
        } else {
            match received(to, state[to].record, mint, new_owner) {
                Err(e) => Err(e),
                Ok(holding) => match delivered(state, rate, payer, to, holding) {
                    Err(e) => Err(e),
                    Ok(arrived) => closed(arrived, from, treasury),
                },
            }
        },
        _ => Err(EngineError::service(from)),
    }
}

/// The state after a holding that signs for itself gave its token away: as
/// `token_moved`, for the payer as the new owner, and an authorization error
/// where the holding's signature is missing.
pub open spec fn token_transferred(
    state: State,
    rate: u64,
    payer: Address,
    mint: Address,
    from: AccountHandle,
    to: Address,
    treasury: Address,
) -> Result<State, EngineError> {
    if !from.is_signer {
        Err(EngineError::authorization(from.key))
    } else {
        token_moved(state, rate, payer, mint, from.key, to, payer, treasury)
    }
}

impl<'a> Transaction<'a> {
    /// What the destination `to` holds after one unit of `mint` arrived.
    fn receive(&self, to: &Address, mint: &Address, new_owner: &Address) -> (outcome: Result<
        TokenAccount,
        EngineError,
    >)
        ensures
            outcome == received(*to, self@[*to].record, *mint, *new_owner),
    {
        match self.record(to) {
            None => Ok(TokenAccount { mint: *mint, owner: *new_owner, amount: 1 }),
            Some(Record::Empty) => Ok(TokenAccount { mint: *mint, owner: *new_owner, amount: 1 }),
            Some(Record::Holding(holding)) => {
                if holding.mint != *mint {
                    Err(EngineError { kind: ErrorKind::ExternalService, address: *to })
                } else if holding.amount == u64::MAX {
                    Err(EngineError { kind: ErrorKind::Arithmetic, address: *to })
                } else {
                    Ok(
                        TokenAccount {
                            mint: *mint,
                            owner: holding.owner,
                            amount: holding.amount + 1,
                        },
                    )
                }
            },
            Some(_) => Err(EngineError { kind: ErrorKind::ExternalService, address: *to }),
        }
    }

    /// Moves the one unit of `mint` that `from` escrows to `to`, closes
    /// `from` and sweeps its balance to `treasury`.
    pub fn move_token(
        &mut self,
        payer: &Address,
        mint: &Address,
        from: &Address,
        to: &Address,
        new_owner: &Address,
        treasury: &Address,
    ) -> (outcome: Result<(), EngineError>)
        ensures
            final(self).base() == old(self).base(),
            match outcome {
                Ok(()) => token_moved(
                    old(self)@,
                    old(self).base().rent_rate(),
                    *payer,
                    *mint,
                    *from,
                    *to,
                    *new_owner,
                    *treasury,
                ) == Ok::<State, EngineError>(final(self)@),
                Err(e) => token_moved(
                    old(self)@,
                    old(self).base().rent_rate(),
                    *payer,
                    *mint,
                    *from,
                    *to,
                    *new_owner,
                    *treasury,
                ) == Err::<State, EngineError>(e),
            },
    {
        let escrowed = match self.record(from) {
            Some(Record::Holding(source)) => source.mint == *mint && source.owner == *from
                && source.amount == 1 && *from != *to,
            _ => false,
        };
        if !escrowed {
            return Err(EngineError { kind: ErrorKind::ExternalService, address: *from });
        }
        let holding = match self.receive(to, mint, new_owner) {
            Ok(holding) => holding,
            Err(e) => {
                return Err(e);
            },
        };
        if self.is_empty(to) {
            match self.allocate(to, TokenAccount::LEN, payer, Record::Holding(holding)) {
                Err(e) => {
                    return Err(e);
                },
                Ok(()) => {},
            }
        } else {
            self.write(*to, TokenAccount::LEN, Record::Holding(holding));
        }
        self.close_and_sweep(from, treasury)
    }

    /// Moves the token out of a holding that signs for itself, to the payer.
    pub fn transfer_token(
        &mut self,
        payer: &AccountHandle,
        mint: &Address,
        from: &AccountHandle,
        to: &Address,
        treasury: &Address,
    ) -> (outcome: Result<(), EngineError>)
        ensures
            final(self).base() == old(self).base(),
            match outcome {
                Ok(()) => token_transferred(
                    old(self)@,
                    old(self).base().rent_rate(),
                    payer.key,
                    *mint,
                    *from,
                    *to,
                    *treasury,
                ) == Ok::<State, EngineError>(final(self)@),
                Err(e) => token_transferred(
                    old(self)@,
                    old(self).base().rent_rate(),
                    payer.key,
                    *mint,
                    *from,
                    *to,
                    *treasury,
                ) == Err::<State, EngineError>(e),
            },
    {
        if !from.is_signer {
            return Err(EngineError { kind: ErrorKind::Authorization, address: from.key });
        }
        self.move_token(&payer.key, mint, &from.key, to, &payer.key, treasury)
    }
}

/// Moves the token that `from_token_account` escrows to `to_token_account`,
/// which becomes a holding of the payer, funded by the payer, where it was
/// empty; the emptied
/// holding is closed and its balance swept to `profit_id`. The holding must
/// have signed the call. On failure nothing changes.
pub fn process_transfer_token(
    ledger: &mut Ledger,
    payer: &AccountHandle,
    mint: &AccountHandle,
    from_token_account: &AccountHandle,
    to_token_account: &AccountHandle,
    profit_id: &AccountHandle,
) -> (outcome: Result<(), EngineError>)
    ensures
        final(ledger).rent_rate() == old(ledger).rent_rate(),
        match outcome {
            Ok(()) => token_transferred(
                old(ledger)@,
                old(ledger).rent_rate(),
                payer.key,
                mint.key,
                *from_token_account,
                to_token_account.key,
                profit_id.key,
            ) == Ok::<State, EngineError>(final(ledger)@),
            Err(e) => final(ledger)@ == old(ledger)@ && token_transferred(
                old(ledger)@,
                old(ledger).rent_rate(),
                payer.key,
                mint.key,
                *from_token_account,
                to_token_account.key,
                profit_id.key,
            ) == Err::<State, EngineError>(e),
        },
{
    let mut tx = Transaction::begin(ledger);
    match tx.transfer_token(
        payer,
        &mint.key,
        from_token_account,
        &to_token_account.key,
        &profit_id.key,
    ) {
        Ok(()) => {
            let staged = tx.finish();
            ledger.commit(staged);
            Ok(())
        },
        Err(e) => Err(e),
    }
}

} // verus!
