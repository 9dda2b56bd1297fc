//! Moving an escrowed token out of a vault: the engine co-signs with the
//! seeds the vault's address derives from.

use crate::address::{check_derived, checked, Address, Seeds};
use crate::error::EngineError;
use crate::handle::AccountHandle;
use crate::ledger::{Ledger, State, Transaction};
use crate::token::transfer_token::token_moved;
use vstd::prelude::*;

verus! {

/// The state after a vault gave its token away under the engine's
/// co-signature: an address mismatch unless the signer seeds derive the
/// vault's address, else as `token_moved`.
pub open spec fn token_released(
    state: State,
    rate: u64,
    payer: Address,
    new_owner: Address,
    mint: Address,
    from: Address,
    to: Address,
    treasury: Address,
    derived: Option<(Address, u8)>,
) -> Result<State, EngineError> {
    match checked(from, derived) {
        Err(e) => Err(e),
        Ok(_) => token_moved(state, rate, payer, mint, from, to, new_owner, treasury),
    }
}

impl<'a> Transaction<'a> {
    /// Moves the token out of the vault `from`, co-signed by the seeds whose
    /// derivation is `derived`.
    pub fn transfer_token_seed(
        &mut self,
        payer: &Address,
        new_owner: &Address,
        mint: &Address,
        from: &Address,
        to: &Address,
        treasury: &Address,
        derived: Option<(Address, u8)>,
    ) -> (outcome: Result<(), EngineError>)
        ensures
            final(self).base() == old(self).base(),
            match outcome {
                Ok(()) => token_released(
                    old(self)@,
                    old(self).base().rent_rate(),
                    *payer,
                    *new_owner,
                    *mint,
                    *from,
                    *to,
                    *treasury,
                    derived,
                ) == Ok::<State, EngineError>(final(self)@),
                Err(e) => token_released(
                    old(self)@,
                    old(self).base().rent_rate(),
                    *payer,
                    *new_owner,
                    *mint,
                    *from,
                    *to,
                    *treasury,
                    derived,
                ) == Err::<State, EngineError>(e),
            },
    {
        match check_derived(from, derived) {
            Err(e) => {
                return Err(e);
            },
            Ok(_) => {},
        }
        self.move_token(payer, mint, from, to, new_owner, treasury)
    }
}

/// Moves the token that the vault `from_token_account` escrows to
/// `to_token_account`, which becomes a holding of `new_owner`, funded by the
/// payer, where it was empty; the vault is closed and its balance swept to `profit_id`. The
/// engine signs for the vault with `signer_seeds`, which must derive the
/// vault's address. On failure nothing changes.
pub fn process_transfer_token_seed(
    ledger: &mut Ledger,
    payer: &AccountHandle,
    new_owner: &AccountHandle,
    mint: &AccountHandle,
    from_token_account: &AccountHandle,
    to_token_account: &AccountHandle,
    profit_id: &AccountHandle,
    signer_seeds: &Seeds,
) -> (outcome: Result<(), EngineError>)
    ensures
        final(ledger).rent_rate() == old(ledger).rent_rate(),
        match outcome {
            Ok(()) => token_released(
                old(ledger)@,
                old(ledger).rent_rate(),
                payer.key,
                new_owner.key,
                mint.key,
                from_token_account.key,
                to_token_account.key,
                profit_id.key,
                signer_seeds.derived(),
            ) == Ok::<State, EngineError>(final(ledger)@),
            Err(e) => final(ledger)@ == old(ledger)@ && token_released(
                old(ledger)@,
                old(ledger).rent_rate(),
                payer.key,
                new_owner.key,
                mint.key,
                from_token_account.key,
                to_token_account.key,
                profit_id.key,
                signer_seeds.derived(),
            ) == Err::<State, EngineError>(e),
        },
{
    let derived = crate::address::derive(signer_seeds);
    let mut tx = Transaction::begin(ledger);
    match tx.transfer_token_seed(
        &payer.key,
        &new_owner.key,
        &mint.key,
        &from_token_account.key,
        &to_token_account.key,
        &profit_id.key,
        derived,
    ) {
        Ok(()) => {
            let staged = tx.finish();
            ledger.commit(staged);
            Ok(())
        },
        Err(e) => Err(e),
    }
}

} // verus!
