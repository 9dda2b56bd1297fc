//! The dispatcher: reads the roles of an operation off the handles of a
//! call, in their fixed order, and hands the call to the operation.

use crate::address::{base58_text, Address};
use crate::error::{EngineError, ErrorKind};
use crate::handle::AccountHandle;
use crate::instruction::SolInstruction;
use crate::ledger::{Ledger, State};
use crate::types::metadata::{CreateMetadataArgs, Descriptor};
use crate::utils::create_share::{
    process_create_share,
    share_addresses,
    share_descriptor,
    share_issued,
    ShareIssue,
};
use crate::utils::del_pda::{process_del_pda, session_addresses, session_closed};
use crate::utils::save_token::{process_save_token, save_token_descriptor, save_token_state};
use crate::utils::sell_withdrawal::{process_sell_withdrawal, sale_addresses, withdrawn, Withdrawal};
use vstd::prelude::*;

verus! {

/// The dispatcher.
pub struct Processor;

/// The number of handles a withdrawal takes: the token, the seller, the
/// buyer, the buyer's holding, the vault, the sale record, the applicant,
/// the treasury, and four programs.
pub const WITHDRAWAL_HANDLES: usize = 12;

/// The number of handles a session close takes: the payer, the session and
/// the treasury.
pub const CLOSE_HANDLES: usize = 3;

/// The number of handles a share issuance takes: the payer, the counter,
/// the share's record, the token, its holding, the descriptor's account and
/// program, the treasury, and four programs.
pub const SHARE_HANDLES: usize = 12;

/// The roles of a withdrawal, by their place in the call.
pub open spec fn withdrawal_roles(accounts: Seq<AccountHandle>) -> Withdrawal {
    Withdrawal {
        mint: accounts[0].key,
        seller: accounts[1].key,
        buyer: accounts[2],
        destination: accounts[3].key,
        vault: accounts[4].key,
        storage: accounts[5].key,
        applicant: accounts[6].key,
        profit_id: accounts[7].key,
    }
}

/// The roles of a share issuance, by their place in the call.
pub open spec fn share_roles(accounts: Seq<AccountHandle>) -> ShareIssue {
    ShareIssue {
        payer: accounts[0],
        share_storage: accounts[1].key,
        one_storage: accounts[2].key,
        mint: accounts[3].key,
        mint_account: accounts[4].key,
        profit_id: accounts[7].key,
    }
}

/// The state after a call: an address mismatch, naming the program, where
/// handles are missing; else what the operation makes of the roles.
pub open spec fn processed(
    state: State,
    rate: u64,
    program: Address,
    accounts: Seq<AccountHandle>,
    instruction: SolInstruction,
    now: u64,
) -> Result<State, EngineError> {
    match instruction {
        SolInstruction::SellWithdrawal => if accounts.len() < WITHDRAWAL_HANDLES {
            Err(EngineError::mismatch(program))
        } else {
            withdrawn(
                state,
                rate,
                withdrawal_roles(accounts),
                sale_addresses(program, withdrawal_roles(accounts)),
            )
        },
        SolInstruction::DelPDA => if accounts.len() < CLOSE_HANDLES {
            Err(EngineError::mismatch(program))
        } else {
            session_closed(
                state,
                accounts[0],
                accounts[1].key,
                accounts[2].key,
                session_addresses(program, accounts[0].key),
            )
        },
        SolInstruction::SaveToken { data } => save_token_state(state, rate, program, accounts, data),
        SolInstruction::CreateShare { data } => if accounts.len() < SHARE_HANDLES {
            Err(EngineError::mismatch(program))
        } else {
            share_issued(
                state,
                rate,
                share_roles(accounts),
                now,
                base58_text(accounts[0].key@),
                share_addresses(program, accounts[3].key),
            )
        },
    }
}

/// The descriptor a successful call hands to the mint service, where the
/// operation issues a token.
pub open spec fn handed_out(
    state: State,
    program: Address,
    accounts: Seq<AccountHandle>,
    instruction: SolInstruction,
) -> Option<Descriptor> {
    match instruction {
        SolInstruction::SaveToken { data } => match save_token_descriptor(
            state,
            program,
            accounts,
            data,
        ) {
            Ok(descriptor) => Some(descriptor),
            Err(_) => None,
        },
        SolInstruction::CreateShare { data } => Some(share_descriptor(data.metaplex)),
        _ => None,
    }
}

impl Processor {
    /// Carries out one call on the ledger: all of it, or nothing.
    ///
    /// `accounts` are the handles of the call in the order the operation
    /// fixes, `now` is the time of the call. Where the operation issues a
    /// token, the descriptor for the mint service is handed out.
    pub fn process(
        program_id: &Address,
        ledger: &mut Ledger,
        accounts: &[AccountHandle],
        instruction: SolInstruction,
        now: u64,
    ) -> (outcome: Result<Option<CreateMetadataArgs>, EngineError>)
        ensures
            final(ledger).rent_rate() == old(ledger).rent_rate(),
            match outcome {
                Ok(output) => {
                    &&& processed(
                        old(ledger)@,
                        old(ledger).rent_rate(),
                        *program_id,
                        accounts@,
                        instruction,
                        now,
                    ) == Ok::<State, EngineError>(final(ledger)@)
                    &&& match output {
                        Some(args) => handed_out(old(ledger)@, *program_id, accounts@, instruction)
                            == Some(args@),
                        None => handed_out(old(ledger)@, *program_id, accounts@, instruction)
                            is None,
                    }
                },
                Err(e) => final(ledger)@ == old(ledger)@ && processed(
                    old(ledger)@,
                    old(ledger).rent_rate(),
                    *program_id,
                    accounts@,
                    instruction,
                    now,
                ) == Err::<State, EngineError>(e),
            },
    {
        match instruction {
            SolInstruction::SellWithdrawal => {
                if accounts.len() < WITHDRAWAL_HANDLES {
                    return Err(
                        EngineError { kind: ErrorKind::AddressMismatch, address: *program_id },
                    );
                }
                match process_sell_withdrawal(
                    ledger,
                    program_id,
                    &accounts[0],
                    &accounts[1],
                    &accounts[2],
                    &accounts[3],
                    &accounts[4],
                    &accounts[5],
                    &accounts[6],
                    &accounts[7],
                ) {
                    Ok(()) => Ok(None),
                    Err(e) => Err(e),
                }
            },
            SolInstruction::DelPDA => {
                if accounts.len() < CLOSE_HANDLES {
                    return Err(
                        EngineError { kind: ErrorKind::AddressMismatch, address: *program_id },
                    );
                }
                match process_del_pda(ledger, program_id, &accounts[0], &accounts[1], &accounts[2]) {
                    Ok(()) => Ok(None),
                    Err(e) => Err(e),
                }
            },
            SolInstruction::SaveToken { data } => {
                match process_save_token(ledger, program_id, accounts, data) {
                    Ok(args) => Ok(Some(args)),
                    Err(e) => Err(e),
                }
            },
            SolInstruction::CreateShare { data } => {
                if accounts.len() < SHARE_HANDLES {
                    return Err(
                        EngineError { kind: ErrorKind::AddressMismatch, address: *program_id },
                    );
                }
                match process_create_share(
                    ledger,
                    program_id,
                    &accounts[0],
                    &accounts[1],
                    &accounts[2],
                    &accounts[3],
                    &accounts[4],
                    &accounts[7],
                    data,
                    now,
                ) {
                    Ok(args) => Ok(Some(args)),
                    Err(e) => Err(e),
                }
            },
        }
    }
}

} // verus!
