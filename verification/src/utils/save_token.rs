//! Redeeming a burned box for the token it stands for.

use crate::address::{base58_text, check_derived, checked, derivation, Address, Seeds};
use crate::error::{EngineError, ErrorKind};
use crate::handle::AccountHandle;
use crate::ledger::{Ledger, Record, State, Transaction};
use crate::lifecycle::{allocated, closed};
use crate::token::mint_token::minted;
use crate::types::metadata::{CreateMetadataArgs, Descriptor};
use crate::types::nft_lottery::{BoxData, BoxKind, SaveToken};
use crate::types::token::{TokenAccount, TokenMint};
use crate::{LOTTERY_NFT, LOTTERY_SEED, SHARE_SEED};
use vstd::prelude::*;
use vstd::string::StringExecFns;

verus! {

/// The handles of a redemption, by role.
#[derive(Clone, Copy, Debug, PartialEq, Eq)]
pub struct Redemption {
    /// Who redeems; must have signed.
    pub payer: AccountHandle,
    /// The identity of the box token, which must have been burned.
    pub burned_token: Address,
    /// The record of the box.
    pub burned_token_storage: Address,
    /// The identity of the token to issue.
    pub mint: Address,
    /// The holding the new token is issued into.
    pub mint_account: Address,
    /// The treasury.
    pub profit_id: Address,
    /// The session that issued the box.
    pub storage: Address,
    /// The record that keeps where the new token came from.
    pub mint_storage: Address,
}

/// What the seeds of the box record, of its session, of the treasury and of
/// the new token's record derive.
#[derive(Clone, Copy, Debug, PartialEq, Eq)]
pub struct RedemptionAddresses {
    pub box_record: Option<(Address, u8)>,
    pub session: Option<(Address, u8)>,
    pub treasury: Option<(Address, u8)>,
    pub provenance: Option<(Address, u8)>,
}

/// The address a box is described under: its session's prefix, then
/// `meta/`, then the item as text.
pub open spec fn item_uri(url: Seq<char>, item: Seq<char>) -> Seq<char> {
    url + "meta/"@ + item
}

/// The descriptor of the token a box of the plain family turns into.
pub open spec fn plain_box(url: Seq<char>, session: Address, metaplex: u8) -> Descriptor {
    Descriptor::plain(
        "lottery_box"@,
        "SOL in Box"@,
        "BOX"@,
        item_uri(url, base58_text(session@)),
        metaplex,
    )
}

/// The descriptor of the token a box of the multi-slot family turns into
/// when it reveals a generic box.
pub open spec fn reveal_box(url: Seq<char>, session: Address, metaplex: u8) -> Descriptor {
    Descriptor::plain(
        "nft_box"@,
        "NFT in Box"@,
        "BOX"@,
        item_uri(url, base58_text(session@)),
        metaplex,
    )
}

/// The descriptor of the token a box of the multi-slot family turns into
/// when it stands for one item.
pub open spec fn indexed_box(url: Seq<char>, item: Address, metaplex: u8) -> Descriptor {
    Descriptor::plain(
        "nft_box"@,
        "NFT in Box"@,
        "NIB"@,
        item_uri(url, base58_text(item@)),
        metaplex,
    )
}

/// The descriptor a box is classified to. The namespace of the box selects
/// the family; the session must be a record of that family, owned by the
/// owner the box names and at the address the box names; an indexed box
/// names the item at its index. A namespace of neither family is forged.
pub open spec fn classified(
    at: Address,
    record: BoxData,
    storage: Address,
    session: Record,
    metaplex: u8,
) -> Result<Descriptor, EngineError> {
    if record.seed@ == LOTTERY_SEED@ {
        match session {
            Record::Lottery(lottery) => if lottery.owner != record.owner || storage
                != record.storage {
                Err(EngineError::mismatch(storage))
            } else {
                Ok(plain_box(lottery.url@, storage, metaplex))
            },
            _ => Err(EngineError::state(storage)),
        }
    } else if record.seed@ == LOTTERY_NFT@ {
        match session {
            Record::NftLottery(lottery) => if lottery.owner != record.owner || storage
                != record.storage {
                Err(EngineError::mismatch(storage))
            } else {
                match record.is_box {
                    BoxKind::Reveal => Ok(reveal_box(lottery.url@, storage, metaplex)),
                    BoxKind::Indexed => if record.index < lottery.pictures@.len() {
                        Ok(indexed_box(lottery.url@, lottery.pictures@[record.index as int], metaplex))
                    } else {
                        Err(EngineError::state(storage))
                    },
                }
            },
            _ => Err(EngineError::state(storage)),
        }
    } else {
        Err(EngineError::state(at))
    }
}

/// The box record a redemption is admitted on: the payer signed, the record
/// still exists, the box token's supply is exactly zero, the record is what
/// the caller claims, and the record, its session and the treasury are at
/// their derived addresses.
pub open spec fn redeemable(
    state: State,
    call: Redemption,
    data: SaveToken,
    derived: RedemptionAddresses,
) -> Result<BoxData, EngineError> {
    if !call.payer.is_signer {
        Err(EngineError::authorization(call.payer.key))
    } else {
        match state[call.burned_token_storage].record {
            Record::Box(record) => match state[call.burned_token].record {
                Record::Mint(token) => if token.supply != 0 {
                    Err(EngineError::state(call.burned_token))
                } else if record.seed@ != data.box_data.seed@ || record.owner
                    != data.box_data.owner {
                    Err(EngineError::mismatch(call.burned_token_storage))
                } else if checked(call.burned_token_storage, derived.box_record) is Err {
                    Err(EngineError::mismatch(call.burned_token_storage))
                } else if checked(call.storage, derived.session) is Err {
                    Err(EngineError::mismatch(call.storage))
                } else if checked(call.profit_id, derived.treasury) is Err {
                    Err(EngineError::mismatch(call.profit_id))
                } else {
                    Ok(record)
                },
                _ => Err(EngineError::state(call.burned_token)),
            },
            _ => Err(EngineError::state(call.burned_token_storage)),
        }
    }
}

/// The descriptor a redemption hands to the mint service.
pub open spec fn redemption_descriptor(
    state: State,
    call: Redemption,
    data: SaveToken,
    derived: RedemptionAddresses,
) -> Result<Descriptor, EngineError> {
    match redeemable(state, call, data, derived) {
        Err(e) => Err(e),
        Ok(record) => classified(
            call.burned_token_storage,
            record,
            call.storage,
            state[call.storage].record,
            data.metaplex,
        ),
    }
}

/// The state after the new token was issued and the box consumed: the new
/// token's record, at its derived address and empty so far, keeps
/// `assigned`, the box record with the token assigned; exactly one unit of
/// the new token is issued to the payer; and only then the box record is
/// closed and its balance swept to the treasury.
pub open spec fn issued(
    state: State,
    rate: u64,
    call: Redemption,
    assigned: BoxData,
    derived: RedemptionAddresses,
) -> Result<State, EngineError> {
    if checked(call.mint_storage, derived.provenance) is Err {
        Err(EngineError::mismatch(call.mint_storage))
    } else if !(state[call.mint_storage].record is Empty) {
        Err(EngineError::state(call.mint_storage))
    } else if assigned.encoded_len() > u64::MAX {
        Err(EngineError::arithmetic(call.mint_storage))
    } else {
        match allocated(
            state,
            rate,
            call.mint_storage,
            assigned.encoded_len() as u64,
            call.payer.key,
            Record::Box(assigned),
        ) {
            Err(e) => Err(e),
            Ok(kept) => match minted(
                kept,
                rate,
                call.payer.key,
                call.mint,
                call.mint_account,
                call.payer.key,
            ) {
                Err(e) => Err(e),
                Ok(done) => closed(done, call.burned_token_storage, call.profit_id),
            },
        }
    }
}

/// The state after a redemption.
pub open spec fn redeemed(
    state: State,
    rate: u64,
    call: Redemption,
    data: SaveToken,
    derived: RedemptionAddresses,
) -> Result<State, EngineError> {
    match redeemable(state, call, data, derived) {
        Err(e) => Err(e),
        Ok(record) => match redemption_descriptor(state, call, data, derived) {
            Err(e) => Err(e),
            Ok(_) => issued(state, rate, call, record.assigned_to(call.mint), derived),
        },
    }
}

/// What the seeds of a redemption derive under `program`. The namespace is
/// the one the box record names; without a box record nothing is derived.
pub open spec fn redemption_addresses(state: State, program: Address, call: Redemption) -> RedemptionAddresses {
    match state[call.burned_token_storage].record {
        Record::Box(record) => RedemptionAddresses {
            box_record: derivation(record.seed@, program, call.burned_token),
            session: derivation(record.seed@, program, record.owner),
            treasury: derivation(SHARE_SEED@, program, program),
            provenance: derivation(record.seed@, program, call.mint),
        },
        _ => RedemptionAddresses { box_record: None, session: None, treasury: None, provenance: None },
    }
}

/// A redemption succeeds only on a proof of burn and a record that was not
/// consumed: wherever it succeeds, the payer signed, the box record was
/// there, and the supply of the box token was exactly zero; afterwards the
/// box record is gone, the new token's record names the token, and exactly
/// one unit of the new token is held by the payer.
pub proof fn lemma_redeem_needs_burn(
    state: State,
    rate: u64,
    call: Redemption,
    data: SaveToken,
    derived: RedemptionAddresses,
)
    requires
        redeemed(state, rate, call, data, derived) is Ok,
    ensures
        call.payer.is_signer,
        state[call.burned_token_storage].record is Box,
        state[call.burned_token].record matches Record::Mint(token) && token.supply == 0,
        ({
            let after = redeemed(state, rate, call, data, derived)->Ok_0;
            let record = state[call.burned_token_storage].record->Box_0;
            &&& after[call.burned_token_storage].record is Empty
            &&& after[call.mint_storage].record == Record::Box(record.assigned_to(call.mint))
            &&& after[call.mint].record == Record::Mint(TokenMint { supply: 1, decimals: 0 })
            &&& after[call.mint_account].record == Record::Holding(
                TokenAccount { mint: call.mint, owner: call.payer.key, amount: 1 },
            )
        }),
{
}

/// A signed redemption fails with a state error that names the box record
/// where the record was consumed before, and with a state error that names
/// the box token where its supply is not exactly zero.
pub proof fn lemma_redeem_refused(
    state: State,
    rate: u64,
    call: Redemption,
    data: SaveToken,
    derived: RedemptionAddresses,
)
    requires
        call.payer.is_signer,
    ensures
        !(state[call.burned_token_storage].record is Box) ==> redeemed(
            state,
            rate,
            call,
            data,
            derived,
        ) == Err::<State, EngineError>(EngineError::state(call.burned_token_storage)),
        state[call.burned_token_storage].record is Box && !(state[call.burned_token].record
            matches Record::Mint(token) && token.supply == 0) ==> redeemed(
            state,
            rate,
            call,
            data,
            derived,
        ) == Err::<State, EngineError>(EngineError::state(call.burned_token)),
{
}

/// A box cannot be redeemed twice: after a successful redemption, every
/// further redemption of the same box record fails, whoever asks, whatever
/// is claimed and whatever is derived.
pub proof fn lemma_redeem_only_once(
    state: State,
    rate: u64,
    call: Redemption,
    data: SaveToken,
    derived: RedemptionAddresses,
    again: Redemption,
    data_again: SaveToken,
    derived_again: RedemptionAddresses,
)
    requires
        redeemed(state, rate, call, data, derived) is Ok,
        again.burned_token_storage == call.burned_token_storage,
    ensures
        redeemed(
            redeemed(state, rate, call, data, derived)->Ok_0,
            rate,
            again,
            data_again,
            derived_again,
        ) is Err,
{
}

/// Builds the descriptor of a redeemed box. `item` is the text of the
/// address the box is described under.
pub fn describe(kind: &str, name: &str, symbol: &str, url: &String, item: &String, metaplex: u8) -> (args:
    CreateMetadataArgs)
    ensures
        args@ == Descriptor::plain(kind@, name@, symbol@, item_uri(url@, item@), metaplex),
{
    let uri = url.clone().concat("meta/").concat(item.as_str());
    CreateMetadataArgs::plain(
        String::from_str(kind),
        String::from_str(name),
        String::from_str(symbol),
        uri,
        metaplex,
    )
}

impl<'a> Transaction<'a> {
    /// Admits a redemption and hands out a copy of the box record, assigned
    /// to the new token.
    pub fn admit_redemption(
        &self,
        call: &Redemption,
        data: &SaveToken,
        derived: &RedemptionAddresses,
    ) -> (outcome: Result<BoxData, EngineError>)
        ensures
            match outcome {
                Ok(assigned) => {
                    &&& redeemable(self@, *call, *data, *derived) matches Ok(record)
                    &&& assigned == record.assigned_to(call.mint)
                },
                Err(e) => redeemable(self@, *call, *data, *derived) == Err::<BoxData, EngineError>(
                    e,
                ),
            },
    {
        if !call.payer.is_signer {
            return Err(EngineError { kind: ErrorKind::Authorization, address: call.payer.key });
        }
        let record = match self.record(&call.burned_token_storage) {
            Some(Record::Box(record)) => record,
            _ => {
                return Err(
                    EngineError { kind: ErrorKind::State, address: call.burned_token_storage },
                );
            },
        };
        let supply = match self.record(&call.burned_token) {
            Some(Record::Mint(token)) => token.supply,
            _ => {
                return Err(EngineError { kind: ErrorKind::State, address: call.burned_token });
            },
        };
        if supply != 0 {
            return Err(EngineError { kind: ErrorKind::State, address: call.burned_token });
        }
        if record.seed != data.box_data.seed || record.owner != data.box_data.owner {
            return Err(
                EngineError { kind: ErrorKind::AddressMismatch, address: call.burned_token_storage },
            );
        }
        if check_derived(&call.burned_token_storage, derived.box_record).is_err() {
            return Err(
                EngineError { kind: ErrorKind::AddressMismatch, address: call.burned_token_storage },
            );
        }
        if check_derived(&call.storage, derived.session).is_err() {
            return Err(EngineError { kind: ErrorKind::AddressMismatch, address: call.storage });
        }
        if check_derived(&call.profit_id, derived.treasury).is_err() {
            return Err(EngineError { kind: ErrorKind::AddressMismatch, address: call.profit_id });
        }
        Ok(record.assign(call.mint))
    }

    /// Classifies the box `record`, found at `at`, against its session at
    /// `storage`, and builds the descriptor of the token it turns into.
    pub fn classify_box(
        &self,
        at: &Address,
        record: &BoxData,
        storage: &Address,
        metaplex: u8,
    ) -> (outcome: Result<CreateMetadataArgs, EngineError>)
        ensures
            match outcome {
                Ok(args) => classified(*at, *record, *storage, self@[*storage].record, metaplex)
                    == Ok::<Descriptor, EngineError>(args@),
                Err(e) => classified(*at, *record, *storage, self@[*storage].record, metaplex)
                    == Err::<Descriptor, EngineError>(e),
            },
    {
        let plain = String::from_str(LOTTERY_SEED);
        let multi = String::from_str(LOTTERY_NFT);
        if record.seed == plain {
            match self.record(storage) {
                Some(Record::Lottery(lottery)) => {
                    if lottery.owner != record.owner || *storage != record.storage {
                        Err(EngineError { kind: ErrorKind::AddressMismatch, address: *storage })
                    } else {
                        Ok(
                            describe(
                                "lottery_box",
                                "SOL in Box",
                                "BOX",
                                &lottery.url,
                                &storage.to_text(),
                                metaplex,
                            ),
                        )
                    }
                },
                _ => Err(EngineError { kind: ErrorKind::State, address: *storage }),
            }
        } else if record.seed == multi {
            match self.record(storage) {
                Some(Record::NftLottery(lottery)) => {
                    if lottery.owner != record.owner || *storage != record.storage {
                        Err(EngineError { kind: ErrorKind::AddressMismatch, address: *storage })
                    } else {
                        match record.is_box {
                            BoxKind::Reveal => Ok(
                                describe(
                                    "nft_box",
                                    "NFT in Box",
                                    "BOX",
                                    &lottery.url,
                                    &storage.to_text(),
                                    metaplex,
                                ),
                            ),
                            BoxKind::Indexed => {
                                let index = record.index as usize;
                                if index < lottery.pictures.len() {
                                    Ok(
                                        describe(
                                            "nft_box",
                                            "NFT in Box",
                                            "NIB",
                                            &lottery.url,
                                            &lottery.pictures[index].to_text(),
                                            metaplex,
                                        ),
                                    )
                                } else {
                                    Err(EngineError { kind: ErrorKind::State, address: *storage })
                                }
                            },
                        }
                    }
                },
                _ => Err(EngineError { kind: ErrorKind::State, address: *storage }),
            }
        } else {
            Err(EngineError { kind: ErrorKind::State, address: *at })
        }
    }

    /// Issues the new token of an admitted redemption and consumes the box.
    /// `assigned` is the box record with the new token assigned.
    pub fn issue(&mut self, call: &Redemption, assigned: BoxData, derived: &RedemptionAddresses) -> (outcome:
        Result<(), EngineError>)
        ensures
            final(self).base() == old(self).base(),
            match outcome {
                Ok(()) => issued(
                    old(self)@,
                    old(self).base().rent_rate(),
                    *call,
                    assigned,
                    *derived,
                ) == Ok::<State, EngineError>(final(self)@),
                Err(e) => issued(
                    old(self)@,
                    old(self).base().rent_rate(),
                    *call,
                    assigned,
                    *derived,
                ) == Err::<State, EngineError>(e),
            },
    {
        if check_derived(&call.mint_storage, derived.provenance).is_err() {
            return Err(EngineError { kind: ErrorKind::AddressMismatch, address: call.mint_storage });
        }
        if !self.is_empty(&call.mint_storage) {
            return Err(EngineError { kind: ErrorKind::State, address: call.mint_storage });
        }
        let space = match assigned.size() {
            Some(bytes) => bytes,
            None => {
                return Err(EngineError { kind: ErrorKind::Arithmetic, address: call.mint_storage });
            },
        };
        match self.allocate(&call.mint_storage, space, &call.payer.key, Record::Box(assigned)) {
            Err(e) => {
                return Err(e);
            },
            Ok(()) => {},
        }
        match self.mint_token(&call.payer.key, &call.mint, &call.mint_account, &call.payer.key) {
            Err(e) => {
                return Err(e);
            },
            Ok(()) => {},
        }
        self.close_and_sweep(&call.burned_token_storage, &call.profit_id)
    }

    /// Redeems a burned box: validates the proof of burn, classifies the
    /// box, issues the new token and consumes the box record. Hands out the
    /// descriptor the mint service is given. `derived` is what the seeds of
    /// the records involved derive.
    pub fn redeem(&mut self, call: &Redemption, data: &SaveToken, derived: &RedemptionAddresses) -> (outcome:
        Result<CreateMetadataArgs, EngineError>)
        ensures
            final(self).base() == old(self).base(),
            match outcome {
                Ok(args) => {
                    &&& redeemed(
                        old(self)@,
                        old(self).base().rent_rate(),
                        *call,
                        *data,
                        *derived,
                    ) == Ok::<State, EngineError>(final(self)@)
                    &&& redemption_descriptor(old(self)@, *call, *data, *derived) == Ok::<
                        Descriptor,
                        EngineError,
                    >(args@)
                },
                Err(e) => redeemed(
                    old(self)@,
                    old(self).base().rent_rate(),
                    *call,
                    *data,
                    *derived,
                ) == Err::<State, EngineError>(e),
            },
    {
        let assigned = match self.admit_redemption(call, data, derived) {
            Ok(assigned) => assigned,
            Err(e) => {
                return Err(e);
            },
        };
        let args = match self.classify_box(
            &call.burned_token_storage,
            &assigned,
            &call.storage,
            data.metaplex,
        ) {
            Ok(args) => args,
            Err(e) => {
                return Err(e);
            },
        };
        match self.issue(call, assigned, derived) {
            Ok(()) => Ok(args),
            Err(e) => Err(e),
        }
    }
}

/// The number of handles a redemption takes.
pub const REDEMPTION_HANDLES: usize = 14;

/// The handles of a redemption, by their place in the call: the payer, the
/// box token, the box record, the new token, its holding, the descriptor's
/// account and program, the treasury, the session, the new token's record,
/// and four programs.
pub open spec fn redemption_roles(accounts: Seq<AccountHandle>) -> Option<Redemption> {
    if accounts.len() < REDEMPTION_HANDLES {
        None
    } else {
        Some(
            Redemption {
                payer: accounts[0],
                burned_token: accounts[1].key,
                burned_token_storage: accounts[2].key,
                mint: accounts[3].key,
                mint_account: accounts[4].key,
                profit_id: accounts[7].key,
                storage: accounts[8].key,
                mint_storage: accounts[9].key,
            },
        )
    }
}

/// Reads the roles of a redemption off the handles of a call.
pub fn assign_redemption_roles(accounts: &[AccountHandle]) -> (roles: Option<Redemption>)
    ensures
        roles == redemption_roles(accounts@),
{
    if accounts.len() < REDEMPTION_HANDLES {
        None
    } else {
        Some(
            Redemption {
                payer: accounts[0],
                burned_token: accounts[1].key,
                burned_token_storage: accounts[2].key,
                mint: accounts[3].key,
                mint_account: accounts[4].key,
                profit_id: accounts[7].key,
                storage: accounts[8].key,
                mint_storage: accounts[9].key,
            },
        )
    }
}

/// Derives the addresses a redemption is held against.
pub fn derive_redemption_addresses(ledger: &Ledger, program_id: &Address, call: &Redemption) -> (derived:
    RedemptionAddresses)
    ensures
        derived == redemption_addresses(ledger@, *program_id, *call),
{
    match ledger.record(&call.burned_token_storage) {
        Some(Record::Box(record)) => {
            let namespace = record.seed.as_str();
            RedemptionAddresses {
                box_record: crate::address::derive(
                    &Seeds { namespace, issuer: *program_id, discriminant: call.burned_token },
                ),
                session: crate::address::derive(
                    &Seeds { namespace, issuer: *program_id, discriminant: record.owner },
                ),
                treasury: crate::address::derive(
                    &Seeds { namespace: SHARE_SEED, issuer: *program_id, discriminant: *program_id },
                ),
                provenance: crate::address::derive(
                    &Seeds { namespace, issuer: *program_id, discriminant: call.mint },
                ),
            }
        },
        _ => RedemptionAddresses { box_record: None, session: None, treasury: None, provenance: None },
    }
}

/// The outcome of a redemption call: an address mismatch, naming the
/// program, where handles are missing; else the redemption of the roles the
/// handles stand for.
pub open spec fn save_token_state(
    state: State,
    rate: u64,
    program: Address,
    accounts: Seq<AccountHandle>,
    data: SaveToken,
) -> Result<State, EngineError> {
    match redemption_roles(accounts) {
        None => Err(EngineError::mismatch(program)),
        Some(call) => redeemed(state, rate, call, data, redemption_addresses(state, program, call)),
    }
}

/// The descriptor a redemption call hands to the mint service.
pub open spec fn save_token_descriptor(
    state: State,
    program: Address,
    accounts: Seq<AccountHandle>,
    data: SaveToken,
) -> Result<Descriptor, EngineError> {
    match redemption_roles(accounts) {
        None => Err(EngineError::mismatch(program)),
        Some(call) => redemption_descriptor(
            state,
            call,
            data,
            redemption_addresses(state, program, call),
        ),
    }
}

/// Redeems a burned box for the token it stands for.
///
/// The box record must still exist and the box token's supply must be
/// exactly zero; the record, its session and the new token's record must be
/// at the addresses their seeds derive. The new token's record is created,
/// exactly one unit of the new token is issued to the payer, and only then
/// the box record is closed and swept to the treasury. Hands out the
/// descriptor of the new token. On failure nothing changes.
pub fn process_save_token(
    ledger: &mut Ledger,
    program_id: &Address,
    accounts: &[AccountHandle],
    data: SaveToken,
) -> (outcome: Result<CreateMetadataArgs, EngineError>)
    ensures
        final(ledger).rent_rate() == old(ledger).rent_rate(),
        match outcome {
            Ok(args) => {
                &&& save_token_state(
                    old(ledger)@,
                    old(ledger).rent_rate(),
                    *program_id,
                    accounts@,
                    data,
                ) == Ok::<State, EngineError>(final(ledger)@)
                &&& save_token_descriptor(old(ledger)@, *program_id, accounts@, data) == Ok::<
                    Descriptor,
                    EngineError,
                >(args@)
            },
            Err(e) => final(ledger)@ == old(ledger)@ && save_token_state(
                old(ledger)@,
                old(ledger).rent_rate(),
                *program_id,
                accounts@,
                data,
            ) == Err::<State, EngineError>(e),
        },
{
    let call = match assign_redemption_roles(accounts) {
        Some(call) => call,
        None => {
            return Err(EngineError { kind: ErrorKind::AddressMismatch, address: *program_id });
        },
    };
    let derived = derive_redemption_addresses(ledger, program_id, &call);
    let mut tx = Transaction::begin(ledger);
    match tx.redeem(&call, &data, &derived) {
        Ok(args) => {
            let staged = tx.finish();
            ledger.commit(staged);
            Ok(args)
        },
        Err(e) => Err(e),
    }
}

} // verus!
