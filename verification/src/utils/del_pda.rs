//! Closing a lottery session once it is fully drawn.

use crate::address::{check_derived, checked, derivation, Address, Seeds};
use crate::error::{EngineError, ErrorKind};
use crate::handle::AccountHandle;
use crate::ledger::{Ledger, Record, State, Transaction};
use crate::lifecycle::closed;
use crate::{LOTTERY_NFT, LOTTERY_SEED, SHARE_SEED};
use vstd::prelude::*;

verus! {

/// What the seeds of the treasury and of the caller's session in either
/// family derive.
#[derive(Clone, Copy, Debug, PartialEq, Eq)]
pub struct SessionAddresses {
    pub treasury: Option<(Address, u8)>,
    pub plain: Option<(Address, u8)>,
    pub multi: Option<(Address, u8)>,
}

/// What the seeds of a session close derive under `program`.
pub open spec fn session_addresses(program: Address, caller: Address) -> SessionAddresses {
    SessionAddresses {
        treasury: derivation(SHARE_SEED@, program, program),
        plain: derivation(LOTTERY_SEED@, program, caller),
        multi: derivation(LOTTERY_NFT@, program, caller),
    }
}

/// Whether a session's owner and wins let `caller` close it: the owner must
/// be the caller, and the total wins must be exactly the threshold.
pub open spec fn drawn(
    session: Address,
    caller: Address,
    owner: Address,
    wins: nat,
    threshold: u64,
) -> Result<(), EngineError> {
    if owner != caller {
        Err(EngineError::authorization(session))
    } else if wins != threshold {
        Err(EngineError::state(session))
    } else {
        Ok(())
    }
}

/// Whether the record at a session's address lets `caller` close it. The
/// family is the one whose seeds derive the address; the record must be a
/// live session of that family.
pub open spec fn closable(
    record: Record,
    caller: Address,
    session: Address,
    derived: SessionAddresses,
) -> Result<(), EngineError> {
    if checked(session, derived.plain) is Ok {
        match record {
            Record::Lottery(lottery) => drawn(
                session,
                caller,
                lottery.owner,
                lottery.total_wins(),
                lottery.create_box,
            ),
            _ => Err(EngineError::state(session)),
        }
    } else if checked(session, derived.multi) is Ok {
        match record {
            Record::NftLottery(lottery) => drawn(
                session,
                caller,
                lottery.owner,
                lottery.total_wins(),
                lottery.create_box,
            ),
            _ => Err(EngineError::state(session)),
        }
    } else {
        Err(EngineError::mismatch(session))
    }
}

/// The state after `caller` closed the session at `session`: the caller
/// signed, the treasury is the derived one, the session is closable, and
/// its balance went to the treasury as it was destroyed.
pub open spec fn session_closed(
    state: State,
    caller: AccountHandle,
    session: Address,
    treasury: Address,
    derived: SessionAddresses,
) -> Result<State, EngineError> {
    if !caller.is_signer {
        Err(EngineError::authorization(caller.key))
    } else if checked(treasury, derived.treasury) is Err {
        Err(EngineError::mismatch(treasury))
    } else {
        match closable(state[session].record, caller.key, session, derived) {
            Err(e) => Err(e),
            Ok(()) => closed(state, session, treasury),
        }
    }
}

/// The total wins and the threshold of the session a record holds.
pub open spec fn tally(record: Record) -> Option<(nat, u64)> {
    match record {
        Record::Lottery(lottery) => Some((lottery.total_wins(), lottery.create_box)),
        Record::NftLottery(lottery) => Some((lottery.total_wins(), lottery.create_box)),
        _ => None,
    }
}

/// The record at `session` is a live session of the family whose seeds
/// derive the address for `caller`, and `caller` owns it.
pub open spec fn owned_session(
    record: Record,
    caller: Address,
    session: Address,
    derived: SessionAddresses,
) -> bool {
    if checked(session, derived.plain) is Ok {
        record matches Record::Lottery(lottery) && lottery.owner == caller
    } else {
        checked(session, derived.multi) is Ok && (record matches Record::NftLottery(lottery)
            && lottery.owner == caller)
    }
}

/// A session is closed only when its total wins are exactly its threshold:
/// wherever the close succeeds, the record was a session with exactly that
/// many wins, owned by the caller, and afterwards the address holds no
/// record and no balance that it held before is left there.
pub proof fn lemma_close_needs_exact_wins(
    state: State,
    caller: AccountHandle,
    session: Address,
    treasury: Address,
    derived: SessionAddresses,
)
    requires
        session_closed(state, caller, session, treasury, derived) is Ok,
    ensures
        owned_session(state[session].record, caller.key, session, derived),
        tally(state[session].record) matches Some((wins, threshold)) && wins == threshold,
        session_closed(state, caller, session, treasury, derived)->Ok_0[session].record is Empty,
{
}

/// For a signed call by the owner on a session at its derived address, with
/// the derived treasury and a treasury that can hold the session's balance,
/// the close succeeds if and only if the total wins are exactly the
/// threshold; with any other total it fails with a state error that names
/// the session.
pub proof fn lemma_close_iff_exact_wins(
    state: State,
    caller: AccountHandle,
    session: Address,
    treasury: Address,
    derived: SessionAddresses,
)
    requires
        caller.is_signer,
        checked(treasury, derived.treasury) is Ok,
        owned_session(state[session].record, caller.key, session, derived),
        treasury == session || state[treasury].balance + state[session].balance <= u64::MAX,
    ensures
        tally(state[session].record) is Some,
        ({
            let (wins, threshold) = tally(state[session].record)->Some_0;
            &&& session_closed(state, caller, session, treasury, derived) is Ok <==> wins
                == threshold
            &&& wins != threshold ==> session_closed(state, caller, session, treasury, derived)
                == Err::<State, EngineError>(EngineError::state(session))
        }),
{
}

/// A session cannot be closed twice: after a successful close, every
/// further close of the same address fails, whoever asks and whatever is
/// derived.
pub proof fn lemma_close_only_once(
    state: State,
    caller: AccountHandle,
    session: Address,
    treasury: Address,
    derived: SessionAddresses,
    again: AccountHandle,
    treasury_again: Address,
    derived_again: SessionAddresses,
)
    requires
        session_closed(state, caller, session, treasury, derived) is Ok,
    ensures
        session_closed(
            session_closed(state, caller, session, treasury, derived)->Ok_0,
            again,
            session,
            treasury_again,
            derived_again,
        ) is Err,
{
}

/// Holds a session's owner and counted wins against the caller and the
/// threshold. `counted` is the total, or nothing where it does not fit.
fn check_drawn(
    session: &Address,
    caller: &Address,
    owner: &Address,
    counted: Result<u64, EngineError>,
    threshold: u64,
    Ghost(wins): Ghost<nat>,
) -> (outcome: Result<(), EngineError>)
    requires
        match counted {
            Ok(total) => total == wins,
            Err(_) => wins > u64::MAX,
        },
    ensures
        outcome == drawn(*session, *caller, *owner, wins, threshold),
{
    if *owner != *caller {
        return Err(EngineError { kind: ErrorKind::Authorization, address: *session });
    }
    match counted {
        Ok(total) => {
            if total != threshold {
                Err(EngineError { kind: ErrorKind::State, address: *session })
            } else {
                Ok(())
            }
        },
        Err(_) => Err(EngineError { kind: ErrorKind::State, address: *session }),
    }
}

impl<'a> Transaction<'a> {
    /// Whether the session at `session` lets `caller` close it.
    pub fn check_closable(&self, caller: &Address, session: &Address, derived: &SessionAddresses) -> (outcome:
        Result<(), EngineError>)
        ensures
            outcome == closable(self@[*session].record, *caller, *session, *derived),
    {
        if check_derived(session, derived.plain).is_ok() {
            match self.record(session) {
                Some(Record::Lottery(lottery)) => check_drawn(
                    session,
                    caller,
                    &lottery.owner,
                    lottery.count_wins(session),
                    lottery.create_box,
                    Ghost(lottery.total_wins()),
                ),
                _ => Err(EngineError { kind: ErrorKind::State, address: *session }),
            }
        } else if check_derived(session, derived.multi).is_ok() {
            match self.record(session) {
                Some(Record::NftLottery(lottery)) => check_drawn(
                    session,
                    caller,
                    &lottery.owner,
                    lottery.count_wins(session),
                    lottery.create_box,
                    Ghost(lottery.total_wins()),
                ),
                _ => Err(EngineError { kind: ErrorKind::State, address: *session }),
            }
        } else {
            Err(EngineError { kind: ErrorKind::AddressMismatch, address: *session })
        }
    }

    /// Closes the session at `session` for `caller`. `derived` is what the
    /// seeds of the treasury and of the caller's sessions derive.
    pub fn close_session(
        &mut self,
        caller: &AccountHandle,
        session: &Address,
        treasury: &Address,
        derived: &SessionAddresses,
    ) -> (outcome: Result<(), EngineError>)
        ensures
            final(self).base() == old(self).base(),
            match outcome {
                Ok(()) => session_closed(old(self)@, *caller, *session, *treasury, *derived)
                    == Ok::<State, EngineError>(final(self)@),
                Err(e) => session_closed(old(self)@, *caller, *session, *treasury, *derived)
                    == Err::<State, EngineError>(e),
            },
    {
        if !caller.is_signer {
            return Err(EngineError { kind: ErrorKind::Authorization, address: caller.key });
        }
        if check_derived(treasury, derived.treasury).is_err() {
            return Err(EngineError { kind: ErrorKind::AddressMismatch, address: *treasury });
        }
        match self.check_closable(&caller.key, session, derived) {
            Err(e) => {
                return Err(e);
            },
            Ok(()) => {},
        }
        self.close_and_sweep(session, treasury)
    }
}

/// Derives the addresses a session close is held against.
pub fn derive_session_addresses(program_id: &Address, caller: &Address) -> (derived:
    SessionAddresses)
    ensures
        derived == session_addresses(*program_id, *caller),
{
    let treasury = crate::address::derive(
        &Seeds { namespace: SHARE_SEED, issuer: *program_id, discriminant: *program_id },
    );
    let plain = crate::address::derive(
        &Seeds { namespace: LOTTERY_SEED, issuer: *program_id, discriminant: *caller },
    );
    let multi = crate::address::derive(
        &Seeds { namespace: LOTTERY_NFT, issuer: *program_id, discriminant: *caller },
    );
    SessionAddresses { treasury, plain, multi }
}

/// Closes the lottery session at `pda_account` for `payer`.
///
/// The address must be the one the payer's session derives in one of the two
/// families; the session must belong to the payer and its total wins must be
/// exactly its threshold. Its balance goes to the treasury and the session
/// is destroyed. On failure nothing changes.
pub fn process_del_pda(
    ledger: &mut Ledger,
    program_id: &Address,
    payer: &AccountHandle,
    pda_account: &AccountHandle,
    profit_id: &AccountHandle,
) -> (outcome: Result<(), EngineError>)
    ensures
        final(ledger).rent_rate() == old(ledger).rent_rate(),
        match outcome {
            Ok(()) => session_closed(
                old(ledger)@,
                *payer,
                pda_account.key,
                profit_id.key,
                session_addresses(*program_id, payer.key),
            ) == Ok::<State, EngineError>(final(ledger)@),
            Err(e) => final(ledger)@ == old(ledger)@ && session_closed(
                old(ledger)@,
                *payer,
                pda_account.key,
                profit_id.key,
                session_addresses(*program_id, payer.key),
            ) == Err::<State, EngineError>(e),
        },
{
    let derived = derive_session_addresses(program_id, &payer.key);
    let mut tx = Transaction::begin(ledger);
    match tx.close_session(payer, &pda_account.key, &profit_id.key, &derived) {
        Ok(()) => {
            let staged = tx.finish();
            ledger.commit(staged);
            Ok(())
        },
        Err(e) => Err(e),
    }
}

} // verus!
