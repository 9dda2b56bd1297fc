//! Issuing the one unit of a new token.

use crate::address::Address;
use crate::error::{EngineError, ErrorKind};
use crate::ledger::{Record, State, Transaction};
use crate::lifecycle::allocated;
use crate::types::token::{TokenAccount, TokenMint};
use vstd::prelude::*;

verus! {

/// The state after exactly one unit of the new token `mint` was issued into
/// `holder`, a fresh holding of `owner`; `payer` funds both accounts. The
/// token service refuses a token identity or a holding that is in use.
pub open spec fn minted(
    state: State,
    rate: u64,
    payer: Address,
    mint: Address,
    holder: Address,
    owner: Address,
) -> Result<State, EngineError> {
    if !(state[mint].record is Empty) {
        Err(EngineError::service(mint))
    } else if !(state[holder].record is Empty) || holder == mint {
        Err(EngineError::service(holder))
    } else {
        match allocated(
            state,
            rate,
            mint,
            TokenMint::LEN,
            payer,
            Record::Mint(TokenMint { supply: 1, decimals: 0 }),
        ) {
            Err(e) => Err(e),
            Ok(issued) => allocated(
                issued,
                rate,
                holder,
                TokenAccount::LEN,
                payer,
                Record::Holding(TokenAccount { mint, owner, amount: 1 }),
            ),
        }
    }
}

impl<'a> Transaction<'a> {
    /// Issues exactly one unit of the new token `mint` into `holder`, for
    /// `owner`.
    pub fn mint_token(
        &mut self,
        payer: &Address,
        mint: &Address,
        holder: &Address,
        owner: &Address,
    ) -> (outcome: Result<(), EngineError>)
        ensures
            final(self).base() == old(self).base(),
            match outcome {
                Ok(()) => minted(
                    old(self)@,
                    old(self).base().rent_rate(),
                    *payer,
                    *mint,
                    *holder,
                    *owner,
                ) == Ok::<State, EngineError>(final(self)@),
                Err(e) => minted(
                    old(self)@,
                    old(self).base().rent_rate(),
                    *payer,
                    *mint,
                    *holder,
                    *owner,
                ) == Err::<State, EngineError>(e),
            },
    {
        if !self.is_empty(mint) {
            return Err(EngineError { kind: ErrorKind::ExternalService, address: *mint });
        }
        if !self.is_empty(holder) || *holder == *mint {
            return Err(EngineError { kind: ErrorKind::ExternalService, address: *holder });
        }
        match self.allocate(
            mint,
            TokenMint::LEN,
            payer,
            Record::Mint(TokenMint { supply: 1, decimals: 0 }),
        ) {
            Err(e) => {
                return Err(e);
            },
            Ok(()) => {},
        }
        self.allocate(
            holder,
            TokenAccount::LEN,
            payer,
            Record::Holding(TokenAccount { mint: *mint, owner: *owner, amount: 1 }),
        )
    }
}

} // verus!
