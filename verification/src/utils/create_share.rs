//! Issuing a dividend share: the counter of shares is created on first use,
//! and every share gets a record and a token of its own.

use crate::address::{base58_text, check_derived, checked, derivation, Address, Seeds};
use crate::error::{EngineError, ErrorKind};
use crate::handle::AccountHandle;
use crate::ledger::{written, Ledger, Record, State, Transaction};
use crate::lifecycle::{allocated, initialized};
use crate::token::mint_token::minted;
use crate::types::metadata::{CreateMetadataArgs, Descriptor};
use crate::types::share::{Share, ShareData, ShareStorage};
use crate::types::token::{TokenAccount, TokenMint};
use crate::{SHARER, SHARE_SEED};
use vstd::prelude::*;
use vstd::string::StringExecFns;

verus! {

/// The handles of a share issuance, by role.
#[derive(Clone, Copy, Debug, PartialEq, Eq)]
pub struct ShareIssue {
    /// Who issues; must have signed and must be the sharer.
    pub payer: AccountHandle,
    /// The counter of issued shares.
    pub share_storage: Address,
    /// The record of the new share.
    pub one_storage: Address,
    /// The identity of the share's token.
    pub mint: Address,
    /// The holding the token is issued into.
    pub mint_account: Address,
    /// The treasury.
    pub profit_id: Address,
}

/// What the seeds of the treasury, which is also where the counter lives,
/// and of the new share's record derive.
#[derive(Clone, Copy, Debug, PartialEq, Eq)]
pub struct ShareAddresses {
    pub treasury: Option<(Address, u8)>,
    pub share: Option<(Address, u8)>,
}

/// What the seeds of a share issuance derive under `program`.
pub open spec fn share_addresses(program: Address, mint: Address) -> ShareAddresses {
    ShareAddresses {
        treasury: derivation(SHARE_SEED@, program, program),
        share: derivation(SHARE_SEED@, program, mint),
    }
}

/// The descriptor of a share's token.
pub open spec fn share_descriptor(metaplex: u8) -> Descriptor {
    Descriptor::plain("mint"@, "Stock CM"@, "CM"@, "https://cryptomore.me/meta/stock"@, metaplex)
}

/// A counter that counts nothing yet, owned by `owner`.
pub open spec fn fresh_counter(owner: Address) -> ShareStorage {
    ShareStorage { owner, amount: 0, total: 0 }
}

/// The record of a share of `mint`, created at `now`.
pub open spec fn fresh_share(storage: Address, mint: Address, now: u64) -> Share {
    Share {
        storage,
        mint,
        time_create: now,
        last_total: 0,
        total_paid: 0,
        last_paid: 0,
        last_time_paid: 0,
    }
}

/// Whether a share may be issued at all: the payer signed and is the
/// sharer, the share's record is still empty, and the treasury and the
/// counter are at the derived address. `payer_text` is the payer's address
/// as text.
pub open spec fn issuable(
    state: State,
    call: ShareIssue,
    payer_text: Seq<char>,
    derived: ShareAddresses,
) -> Result<(), EngineError> {
    if !call.payer.is_signer || payer_text != SHARER@ {
        Err(EngineError::authorization(call.payer.key))
    } else if !(state[call.one_storage].record is Empty) {
        Err(EngineError::state(call.one_storage))
    } else if checked(call.profit_id, derived.treasury) is Err {
        Err(EngineError::mismatch(call.profit_id))
    } else if checked(call.share_storage, derived.treasury) is Err {
        Err(EngineError::mismatch(call.share_storage))
    } else {
        Ok(())
    }
}

/// The counter a share is counted on: it must be a counter, owned by the
/// payer, that has not reached the limit.
pub open spec fn counted_on(record: Record, call: ShareIssue) -> Result<ShareStorage, EngineError> {
    match record {
        Record::ShareStorage(counter) => if counter.owner != call.payer.key {
            Err(EngineError::authorization(call.share_storage))
        } else if counter.amount >= ShareStorage::LIMIT {
            Err(EngineError::state(call.share_storage))
        } else {
            Ok(counter)
        },
        _ => Err(EngineError::state(call.share_storage)),
    }
}

/// The state after the share was recorded, its token issued and the counter
/// raised by one. The share's record must be at its derived address and
/// still empty, also after the counter was created: a share whose record
/// would share the counter's address is refused.
pub open spec fn share_recorded(
    state: State,
    rate: u64,
    call: ShareIssue,
    now: u64,
    counter: ShareStorage,
    derived: ShareAddresses,
) -> Result<State, EngineError> {
    if checked(call.one_storage, derived.share) is Err {
        Err(EngineError::mismatch(call.one_storage))
    } else if !(state[call.one_storage].record is Empty) {
        Err(EngineError::state(call.one_storage))
    } else {
        match allocated(
            state,
            rate,
            call.one_storage,
            Share::LEN,
            call.payer.key,
            Record::Share(fresh_share(call.share_storage, call.mint, now)),
        ) {
            Err(e) => Err(e),
            Ok(recorded) => match minted(
                recorded,
                rate,
                call.payer.key,
                call.mint,
                call.mint_account,
                call.payer.key,
            ) {
                Err(e) => Err(e),
                Ok(done) => Ok(
                    written(
                        done,
                        call.share_storage,
                        done[call.share_storage].space,
                        Record::ShareStorage(
                            ShareStorage {
                                owner: counter.owner,
                                amount: (counter.amount + 1) as u64,
                                total: counter.total,
                            },
                        ),
                    ),
                ),
            },
        }
    }
}

/// The state after a share was issued: the counter was created on first
/// use, the share recorded, its token issued and the counter raised.
pub open spec fn share_issued(
    state: State,
    rate: u64,
    call: ShareIssue,
    now: u64,
    payer_text: Seq<char>,
    derived: ShareAddresses,
) -> Result<State, EngineError> {
    match issuable(state, call, payer_text, derived) {
        Err(e) => Err(e),
        Ok(()) => match initialized(
            state,
            rate,
            call.share_storage,
            derived.treasury,
            ShareStorage::LEN,
            call.payer.key,
            Record::ShareStorage(fresh_counter(call.payer.key)),
        ) {
            Err(e) => Err(e),
            Ok(ready) => match counted_on(ready[call.share_storage].record, call) {
                Err(e) => Err(e),
                Ok(counter) => share_recorded(ready, rate, call, now, counter, derived),
            },
        },
    }
}

/// A share that was issued has its record: wherever the issue succeeds, the
/// share's address holds the record of a share of the token, created at the
/// time of the call on the counter, with nothing paid yet; the counter is at
/// another address and counts one share more than it did, or one where it
/// was created by this call; and the token's one unit is held by the payer.
pub proof fn lemma_issued_share_is_recorded(
    state: State,
    rate: u64,
    call: ShareIssue,
    now: u64,
    payer_text: Seq<char>,
    derived: ShareAddresses,
)
    requires
        share_issued(state, rate, call, now, payer_text, derived) is Ok,
    ensures
        call.one_storage != call.share_storage,
        ({
            let after = share_issued(state, rate, call, now, payer_text, derived)->Ok_0;
            let counted = match state[call.share_storage].record {
                Record::ShareStorage(counter) => counter.amount,
                _ => 0,
            };
            &&& after[call.one_storage].record == Record::Share(
                fresh_share(call.share_storage, call.mint, now),
            )
            &&& after[call.one_storage].space == Share::LEN
            &&& after[call.share_storage].record matches Record::ShareStorage(counter)
            &&& counter.owner == call.payer.key
            &&& counter.amount == counted + 1
            &&& after[call.mint].record == Record::Mint(TokenMint { supply: 1, decimals: 0 })
            &&& after[call.mint_account].record == Record::Holding(
                TokenAccount { mint: call.mint, owner: call.payer.key, amount: 1 },
            )
        }),
{
}

impl<'a> Transaction<'a> {
    /// Whether a share may be issued at all.
    pub fn check_issuable(&self, call: &ShareIssue, payer_text: &String, derived: &ShareAddresses) -> (outcome:
        Result<(), EngineError>)
        ensures
            outcome == issuable(self@, *call, payer_text@, *derived),
    {
        let sharer = String::from_str(SHARER);
        if !call.payer.is_signer || *payer_text != sharer {
            return Err(EngineError { kind: ErrorKind::Authorization, address: call.payer.key });
        }
        if !self.is_empty(&call.one_storage) {
            return Err(EngineError { kind: ErrorKind::State, address: call.one_storage });
        }
        if check_derived(&call.profit_id, derived.treasury).is_err() {
            return Err(EngineError { kind: ErrorKind::AddressMismatch, address: call.profit_id });
        }
        if check_derived(&call.share_storage, derived.treasury).is_err() {
            return Err(
                EngineError { kind: ErrorKind::AddressMismatch, address: call.share_storage },
            );
        }
        Ok(())
    }

    /// The counter a share is counted on.
    pub fn counter(&self, call: &ShareIssue) -> (outcome: Result<ShareStorage, EngineError>)
        ensures
            outcome == counted_on(self@[call.share_storage].record, *call),
    {
        match self.record(&call.share_storage) {
            Some(Record::ShareStorage(counter)) => {
                if counter.owner != call.payer.key {
                    Err(EngineError { kind: ErrorKind::Authorization, address: call.share_storage })
                } else if counter.amount >= ShareStorage::LIMIT {
                    Err(EngineError { kind: ErrorKind::State, address: call.share_storage })
                } else {
                    Ok(*counter)
                }
            },
            _ => Err(EngineError { kind: ErrorKind::State, address: call.share_storage }),
        }
    }

    /// Issues a share. `payer_text` is the payer's address as text, `now`
    /// the time of the call, `derived` what the seeds of the counter and of
    /// the share's record derive.
    pub fn create_share(
        &mut self,
        call: &ShareIssue,
        data: &ShareData,
        now: u64,
        payer_text: &String,
        derived: &ShareAddresses,
    ) -> (outcome: Result<CreateMetadataArgs, EngineError>)
        ensures
            final(self).base() == old(self).base(),
            match outcome {
                Ok(args) => args@ == share_descriptor(data.metaplex) && share_issued(
                    old(self)@,
                    old(self).base().rent_rate(),
                    *call,
                    now,
                    payer_text@,
                    *derived,
                ) == Ok::<State, EngineError>(final(self)@),
                Err(e) => share_issued(
                    old(self)@,
                    old(self).base().rent_rate(),
                    *call,
                    now,
                    payer_text@,
                    *derived,
                ) == Err::<State, EngineError>(e),
            },
    {
        match self.check_issuable(call, payer_text, derived) {
            Err(e) => {
                return Err(e);
            },
            Ok(()) => {},
        }
        match self.initialize_if_empty(
            &call.share_storage,
            derived.treasury,
            ShareStorage::LEN,
            &call.payer.key,
            Record::ShareStorage(ShareStorage { owner: call.payer.key, amount: 0, total: 0 }),
        ) {
            Err(e) => {
                return Err(e);
            },
            Ok(()) => {},
        }
        let counter = match self.counter(call) {
            Ok(counter) => counter,
            Err(e) => {
                return Err(e);
            },
        };
        if check_derived(&call.one_storage, derived.share).is_err() {
            return Err(EngineError { kind: ErrorKind::AddressMismatch, address: call.one_storage });
        }
        if !self.is_empty(&call.one_storage) {
            return Err(EngineError { kind: ErrorKind::State, address: call.one_storage });
        }
        let share = Share {
            storage: call.share_storage,
            mint: call.mint,
            time_create: now,
            last_total: 0,
            total_paid: 0,
            last_paid: 0,
            last_time_paid: 0,
        };
        match self.allocate(&call.one_storage, Share::LEN, &call.payer.key, Record::Share(share)) {
            Err(e) => {
                return Err(e);
            },
            Ok(()) => {},
        }
        match self.mint_token(&call.payer.key, &call.mint, &call.mint_account, &call.payer.key) {
            Err(e) => {
                return Err(e);
            },
            Ok(()) => {},
        }
        let space = self.space(&call.share_storage);
        self.write(
            call.share_storage,
            space,
            Record::ShareStorage(
                ShareStorage { owner: counter.owner, amount: counter.amount + 1, total: counter.total },
            ),
        );
        Ok(
            CreateMetadataArgs::plain(
                String::from_str("mint"),
                String::from_str("Stock CM"),
                String::from_str("CM"),
                String::from_str("https://cryptomore.me/meta/stock"),
                data.metaplex,
            ),
        )
    }
}

/// Derives the addresses a share issuance is held against.
pub fn derive_share_addresses(program_id: &Address, mint: &Address) -> (derived: ShareAddresses)
    ensures
        derived == share_addresses(*program_id, *mint),
{
    let treasury = crate::address::derive(
        &Seeds { namespace: SHARE_SEED, issuer: *program_id, discriminant: *program_id },
    );
    let share = crate::address::derive(
        &Seeds { namespace: SHARE_SEED, issuer: *program_id, discriminant: *mint },
    );
    ShareAddresses { treasury, share }
}

/// Issues a dividend share to the sharer.
///
/// The counter of shares is created on first use; the share gets a record
/// at the address its token derives and exactly one unit of that token; the
/// counter is raised by one and stops at its limit. Hands out the
/// descriptor of the share's token. On failure nothing changes.
pub fn process_create_share(
    ledger: &mut Ledger,
    program_id: &Address,
    payer: &AccountHandle,
    share_storage: &AccountHandle,
    one_storage: &AccountHandle,
    mint: &AccountHandle,
    mint_account: &AccountHandle,
    profit_id: &AccountHandle,
    data: ShareData,
    now: u64,
) -> (outcome: Result<CreateMetadataArgs, EngineError>)
    ensures
        final(ledger).rent_rate() == old(ledger).rent_rate(),
        ({
            let call = ShareIssue {
                payer: *payer,
                share_storage: share_storage.key,
                one_storage: one_storage.key,
                mint: mint.key,
                mint_account: mint_account.key,
                profit_id: profit_id.key,
            };
            let expected = share_issued(
                old(ledger)@,
                old(ledger).rent_rate(),
                call,
                now,
                base58_text(payer.key@),
                share_addresses(*program_id, mint.key),
            );
            match outcome {
                Ok(args) => args@ == share_descriptor(data.metaplex) && expected == Ok::<
                    State,
                    EngineError,
                >(final(ledger)@),
                Err(e) => final(ledger)@ == old(ledger)@ && expected == Err::<State, EngineError>(e),
            }
        }),
{
    let call = ShareIssue {
        payer: *payer,
        share_storage: share_storage.key,
        one_storage: one_storage.key,
        mint: mint.key,
        mint_account: mint_account.key,
        profit_id: profit_id.key,
    };
    let derived = derive_share_addresses(program_id, &mint.key);
    let payer_text = payer.key.to_text();
    let mut tx = Transaction::begin(ledger);
    match tx.create_share(&call, &data, now, &payer_text, &derived) {
        Ok(args) => {
            let staged = tx.finish();
            ledger.commit(staged);
            Ok(args)
        },
        Err(e) => Err(e),
    }
}

} // verus!
