//! The ledger: an address-keyed store of balances and records, and the
//! transaction that stages changes to it until they are committed together.

use crate::address::Address;
use crate::error::{EngineError, ErrorKind};
use crate::store::AddressMap;
use crate::types::lottery::Lottery;
use crate::types::nft_lottery::{BoxData, NftLottery};
use crate::types::sell::Sell;
use crate::types::share::{Share, ShareStorage};
use crate::types::token::{TokenAccount, TokenMint};
use vstd::prelude::*;

verus! {

/// What an account holds besides its balance.
#[derive(Clone, Debug, PartialEq, Eq)]
pub enum Record {
    /// Nothing: the account was never initialized, or it was closed.
    Empty,
    Sale(Sell),
    Box(BoxData),
    Lottery(Lottery),
    NftLottery(NftLottery),
    ShareStorage(ShareStorage),
    Share(Share),
    /// A token holding, kept by the token service.
    Holding(TokenAccount),
    /// A token identity, kept by the token service.
    Mint(TokenMint),
}

/// The allocated size of an account and the record in it.
#[derive(Clone, Debug, PartialEq, Eq)]
pub struct Slot {
    pub space: u64,
    pub record: Record,
}

/// One account of the ledger.
#[derive(Clone, Debug, PartialEq, Eq)]
pub struct Account {
    pub balance: u64,
    pub space: u64,
    pub record: Record,
}

/// The state of a ledger: the account at every address. An address that was
/// never written holds the vacant account.
pub type State = Map<Address, Account>;

impl Account {
    /// The account of an address that holds nothing.
    pub open spec fn vacant() -> Account {
        Account { balance: 0, space: 0, record: Record::Empty }
    }

    /// This account with another balance.
    pub open spec fn with_balance(self, balance: u64) -> Account {
        Account { balance, space: self.space, record: self.record }
    }

    /// This account with another record in `space` bytes.
    pub open spec fn with_record(self, space: u64, record: Record) -> Account {
        Account { balance: self.balance, space, record }
    }
}

/// The account that a balance map and a slot map hold at `key`, where
/// `under` is the account to fall back on.
pub open spec fn account_at(
    balances: Map<Address, u64>,
    slots: Map<Address, Slot>,
    under: Account,
    key: Address,
) -> Account {
    Account {
        balance: if balances.contains_key(key) {
            balances[key]
        } else {
            under.balance
        },
        space: if slots.contains_key(key) {
            slots[key].space
        } else {
            under.space
        },
        record: if slots.contains_key(key) {
            slots[key].record
        } else {
            under.record
        },
    }
}

/// `state` with the staged balances and slots laid over it.
pub open spec fn overlay(balances: Map<Address, u64>, slots: Map<Address, Slot>, state: State) -> State {
    Map::total(|key: Address| account_at(balances, slots, state[key], key))
}

/// The state after `amount` went from `from` to `to`; an arithmetic error
/// naming the account that cannot give or cannot take that much.
pub open spec fn paid(state: State, from: Address, to: Address, amount: u64) -> Result<
    State,
    EngineError,
> {
    if state[from].balance < amount {
        Err(EngineError::arithmetic(from))
    } else {
        let debited = state.insert(
            from,
            state[from].with_balance((state[from].balance - amount) as u64),
        );
        if debited[to].balance + amount > u64::MAX {
            Err(EngineError::arithmetic(to))
        } else {
            Ok(debited.insert(to, debited[to].with_balance((debited[to].balance + amount) as u64)))
        }
    }
}

/// The state after the whole balance of `from` went to `to`.
pub open spec fn swept(state: State, from: Address, to: Address) -> Result<State, EngineError> {
    paid(state, from, to, state[from].balance)
}

/// The state after `record` was written to `key`, in `space` bytes.
pub open spec fn written(state: State, key: Address, space: u64, record: Record) -> State {
    state.insert(key, state[key].with_record(space, record))
}

/// The record that bytes of the token program stand for: a holding, a mint,
/// or nothing where they are neither.
pub open spec fn token_record(data: Seq<u8>) -> Option<Record> {
    match TokenAccount::unpacked(data) {
        Some(holding) => Some(Record::Holding(holding)),
        None => match TokenMint::unpacked(data) {
            Some(mint) => Some(Record::Mint(mint)),
            None => None,
        },
    }
}

/// Changes that wait to be committed.
pub struct Staged {
    balances: AddressMap<u64>,
    slots: AddressMap<Slot>,
}

impl Staged {
    /// `state` with these changes applied.
    pub closed spec fn over(&self, state: State) -> State {
        overlay(self.balances@, self.slots@, state)
    }
}

/// The ledger.
pub struct Ledger {
    rent: u64,
    balances: AddressMap<u64>,
    slots: AddressMap<Slot>,
}

impl Ledger {
    /// The account at every address.
    pub closed spec fn view(&self) -> State {
        overlay(self.balances@, self.slots@, Map::total(|key: Address| Account::vacant()))
    }

    /// What one byte of account space costs to keep, in the ledger's unit.
    pub closed spec fn rent_rate(&self) -> u64 {
        self.rent
    }

    /// A ledger on which every account is vacant.
    pub fn new(rent: u64) -> (ledger: Ledger)
        ensures
            ledger@ == Map::total(|key: Address| Account::vacant()),
            ledger.rent_rate() == rent,
    {
        let ledger = Ledger { rent, balances: AddressMap::new(), slots: AddressMap::new() };
        assert(ledger@ =~= Map::total(|key: Address| Account::vacant()));
        ledger
    }

    /// The rent rate.
    pub fn rent(&self) -> (rate: u64)
        ensures
            rate == self.rent_rate(),
    {
        self.rent
    }

    /// The balance at `key`.
    pub fn balance(&self, key: &Address) -> (balance: u64)
        ensures
            balance == self@[*key].balance,
    {
        match self.balances.get(key) {
            Some(balance) => *balance,
            None => 0,
        }
    }

    /// The allocated size at `key`.
    pub fn space(&self, key: &Address) -> (space: u64)
        ensures
            space == self@[*key].space,
    {
        match self.slots.get(key) {
            Some(slot) => slot.space,
            None => 0,
        }
    }

    /// The record at `key`; nothing where no record was ever written there.
    pub fn record(&self, key: &Address) -> (found: Option<&Record>)
        ensures
            match found {
                Some(record) => *record == self@[*key].record,
                None => self@[*key].record == Record::Empty,
            },
    {
        match self.slots.get(key) {
            Some(slot) => Some(&slot.record),
            None => None,
        }
    }

    /// Replaces the account at `key`.
    pub fn put(&mut self, key: Address, account: Account)
        ensures
            final(self)@ == old(self)@.insert(key, account),
            final(self).rent_rate() == old(self).rent_rate(),
    {
        let Account { balance, space, record } = account;
        self.balances.put(key, balance);
        self.slots.put(key, Slot { space, record });
        assert(self@ =~= old(self)@.insert(key, account));
    }

    /// Takes over an account of the token program: `data` is unpacked as a
    /// holding or, failing that, as a mint, and stored at `key` with
    /// `balance`. Bytes that are neither are refused, and nothing changes.
    pub fn load_token_state(&mut self, key: Address, balance: u64, data: &[u8]) -> (outcome:
        Result<(), EngineError>)
        ensures
            final(self).rent_rate() == old(self).rent_rate(),
            match outcome {
                Ok(()) => token_record(data@) matches Some(record) && final(self)@ == old(
                    self,
                )@.insert(key, Account { balance, space: data@.len() as u64, record }),
                Err(e) => token_record(data@) is None && final(self)@ == old(self)@ && e
                    == EngineError::service(key),
            },
    {
        let space = data.len() as u64;
        let record = match TokenAccount::unpack(data) {
            Some(holding) => Record::Holding(holding),
            None => match TokenMint::unpack(data) {
                Some(mint) => Record::Mint(mint),
                None => {
                    return Err(EngineError { kind: ErrorKind::ExternalService, address: key });
                },
            },
        };
        self.put(key, Account { balance, space, record });
        Ok(())
    }

    /// Applies staged changes, all of them.
    pub fn commit(&mut self, staged: Staged)
        ensures
            final(self)@ == staged.over(old(self)@),
            final(self).rent_rate() == old(self).rent_rate(),
    {
        let ghost target = staged.over(self@);
        let Staged { mut balances, mut slots } = staged;
        loop
            invariant
                overlay(balances@, slots@, self@) == target,
                self.rent == old(self).rent,
            ensures
                overlay(Map::<Address, u64>::empty(), slots@, self@) == target,
            decreases balances.count(),
        {
            let ghost before = self@;
            let ghost pending = balances@;
            match balances.take_any() {
                Some((key, balance)) => {
                    self.balances.put(key, balance);
                    assert(overlay(balances@, slots@, self@) =~= overlay(pending, slots@, before));
                },
                None => {
                    break ;
                },
            }
        }
        loop
            invariant
                overlay(Map::<Address, u64>::empty(), slots@, self@) == target,
                self.rent == old(self).rent,
            ensures
                self@ == target,
            decreases slots.count(),
        {
            let ghost before = self@;
            let ghost pending = slots@;
            match slots.take_any() {
                Some((key, slot)) => {
                    self.slots.put(key, slot);
                    assert(overlay(Map::<Address, u64>::empty(), slots@, self@) =~= overlay(
                        Map::<Address, u64>::empty(),
                        pending,
                        before,
                    ));
                },
                None => {
                    assert(overlay(Map::<Address, u64>::empty(), slots@, self@) =~= self@);
                    break ;
                },
            }
        }
    }
}

/// A unit of work on a ledger. Changes are staged and become visible on the
/// ledger only when the transaction is finished and committed; a transaction
/// that is dropped leaves the ledger as it was.
pub struct Transaction<'a> {
    ledger: &'a Ledger,
    balances: AddressMap<u64>,
    slots: AddressMap<Slot>,
}

impl<'a> Transaction<'a> {
    /// The ledger as this transaction sees it: the staged changes laid over
    /// the ledger it began on.
    pub closed spec fn view(&self) -> State {
        overlay(self.balances@, self.slots@, self.ledger@)
    }

    /// The ledger the transaction began on.
    pub closed spec fn base(&self) -> Ledger {
        *self.ledger
    }

    /// Begins a transaction on `ledger`.
    pub fn begin(ledger: &'a Ledger) -> (tx: Transaction<'a>)
        ensures
            tx@ == ledger@,
            tx.base() == *ledger,
    {
        let tx = Transaction { ledger, balances: AddressMap::new(), slots: AddressMap::new() };
        assert(tx@ =~= ledger@);
        tx
    }

    /// The rent rate of the ledger.
    pub fn rent(&self) -> (rate: u64)
        ensures
            rate == self.base().rent_rate(),
    {
        self.ledger.rent
    }

    /// The balance at `key`.
    pub fn balance(&self, key: &Address) -> (balance: u64)
        ensures
            balance == self@[*key].balance,
    {
        match self.balances.get(key) {
            Some(balance) => *balance,
            None => self.ledger.balance(key),
        }
    }

    /// The allocated size at `key`.
    pub fn space(&self, key: &Address) -> (space: u64)
        ensures
            space == self@[*key].space,
    {
        match self.slots.get(key) {
            Some(slot) => slot.space,
            None => self.ledger.space(key),
        }
    }

    /// The record at `key`; nothing where no record was ever written there.
    pub fn record(&self, key: &Address) -> (found: Option<&Record>)
        ensures
            match found {
                Some(record) => *record == self@[*key].record,
                None => self@[*key].record == Record::Empty,
            },
    {
        match self.slots.get(key) {
            Some(slot) => Some(&slot.record),
            None => self.ledger.record(key),
        }
    }

    /// Whether the account at `key` holds no record.
    pub fn is_empty(&self, key: &Address) -> (empty: bool)
        ensures
            empty == (self@[*key].record is Empty),
    {
        match self.record(key) {
            Some(Record::Empty) => true,
            Some(_) => false,
            None => true,
        }
    }

    /// Stages `record` at `key`, in `space` bytes.
    pub fn write(&mut self, key: Address, space: u64, record: Record)
        ensures
            final(self)@ == written(old(self)@, key, space, record),
            final(self).base() == old(self).base(),
    {
        self.slots.put(key, Slot { space, record });
        assert(self@ =~= written(old(self)@, key, space, record));
    }

    /// Stages the movement of `amount` from `from` to `to`. Fails, with an
    /// arithmetic error, where `from` holds less or `to` cannot hold more.
    pub fn pay(&mut self, from: &Address, to: &Address, amount: u64) -> (outcome: Result<
        (),
        EngineError,
    >)
        ensures
            final(self).base() == old(self).base(),
            match outcome {
                Ok(()) => paid(old(self)@, *from, *to, amount) == Ok::<State, EngineError>(
                    final(self)@,
                ),
                Err(e) => paid(old(self)@, *from, *to, amount) == Err::<State, EngineError>(e),
            },
    {
        let held = self.balance(from);
        if held < amount {
            return Err(EngineError { kind: ErrorKind::Arithmetic, address: *from });
        }
        let ghost debited = old(self)@.insert(
            *from,
            old(self)@[*from].with_balance((held - amount) as u64),
        );
        let target = if *from == *to {
            held - amount
        } else {
            self.balance(to)
        };
        assert(target == debited[*to].balance);
        match target.checked_add(amount) {
            Some(sum) => {
                self.balances.put(*from, held - amount);
                self.balances.put(*to, sum);
                assert(self@ =~= debited.insert(*to, debited[*to].with_balance(sum)));
                Ok(())
            },
            None => Err(EngineError { kind: ErrorKind::Arithmetic, address: *to }),
        }
    }

    /// Stages the movement of the whole balance of `from` to `to`.
    pub fn sweep(&mut self, from: &Address, to: &Address) -> (outcome: Result<(), EngineError>)
        ensures
            final(self).base() == old(self).base(),
            match outcome {
                Ok(()) => swept(old(self)@, *from, *to) == Ok::<State, EngineError>(final(self)@),
                Err(e) => swept(old(self)@, *from, *to) == Err::<State, EngineError>(e),
            },
    {
        let all = self.balance(from);
        self.pay(from, to, all)
    }

    /// Ends the transaction and hands out what it staged.
    pub fn finish(self) -> (staged: Staged)
        ensures
            staged.over(self.base()@) == self@,
    {
        Staged { balances: self.balances, slots: self.slots }
    }
}

} // verus!
