use custody_engine::address;
use custody_engine::address::{Address, Seeds};
use custody_engine::error::{EngineError, ErrorKind};
use custody_engine::ledger::{Account, Ledger, Record, Transaction};
use custody_engine::lifecycle::{close_and_sweep, initialize_if_empty, rent_exempt_minimum};
use custody_engine::types::share::ShareStorage;

fn key(tag: u8) -> Address {
    Address::new([tag; 32])
}

fn counter(owner: Address, amount: u64) -> Record {
    Record::ShareStorage(ShareStorage { owner, amount, total: 0 })
}

#[test]
fn exempt_minimum_is_the_rate_times_size_and_overhead() {
    assert_eq!(rent_exempt_minimum(10, 48), Some(1760));
    assert_eq!(rent_exempt_minimum(6960, 0), Some(890880));
    assert_eq!(rent_exempt_minimum(0, 165), Some(0));
    assert_eq!(rent_exempt_minimum(1, 10485760), Some(10485888));
    assert_eq!(rent_exempt_minimum(1, 10485761), None);
    assert_eq!(rent_exempt_minimum(1759197129867, 10485760), Some(18446744073706816896));
    assert_eq!(rent_exempt_minimum(1759197129868, 0), None);
    assert_eq!(rent_exempt_minimum(1, u64::MAX), None);
}

#[test]
fn record_is_created_on_first_use_only() {
    let (program, funder) = (key(7), key(1));
    let seeds = Seeds { namespace: "share", issuer: program, discriminant: program };
    let at = address::derive(&seeds).unwrap().0;
    let mut ledger = Ledger::new(10);
    ledger.put(funder, Account { balance: 5000, space: 0, record: Record::Empty });

    assert_eq!(initialize_if_empty(&mut ledger, &at, &seeds, 48, &funder, counter(funder, 0)), Ok(()));
    assert_eq!(ledger.balance(&at), 1760);
    assert_eq!(ledger.balance(&funder), 5000 - 1760);
    assert_eq!(ledger.space(&at), 48);
    assert_eq!(ledger.record(&at), Some(&counter(funder, 0)));
    assert_eq!(ledger.rent(), 10);

    assert_eq!(initialize_if_empty(&mut ledger, &at, &seeds, 48, &funder, counter(key(9), 7)), Ok(()));
    assert_eq!(ledger.balance(&at), 1760);
    assert_eq!(ledger.balance(&funder), 5000 - 1760);
    assert_eq!(ledger.record(&at), Some(&counter(funder, 0)));
}

#[test]
fn record_is_not_created_at_a_foreign_address_or_without_funds() {
    let (program, funder) = (key(7), key(1));
    let seeds = Seeds { namespace: "share", issuer: program, discriminant: program };
    let at = address::derive(&seeds).unwrap().0;
    let mut ledger = Ledger::new(10);
    ledger.put(funder, Account { balance: 1759, space: 0, record: Record::Empty });
    assert_eq!(
        initialize_if_empty(&mut ledger, &key(3), &seeds, 48, &funder, counter(funder, 0)),
        Err(EngineError { kind: ErrorKind::AddressMismatch, address: key(3) })
    );
    assert_eq!(
        initialize_if_empty(&mut ledger, &at, &seeds, 48, &funder, counter(funder, 0)),
        Err(EngineError { kind: ErrorKind::Arithmetic, address: funder })
    );
    assert_eq!(
        initialize_if_empty(&mut ledger, &at, &seeds, 10485761, &funder, counter(funder, 0)),
        Err(EngineError { kind: ErrorKind::Arithmetic, address: at })
    );
    assert_eq!(ledger.balance(&funder), 1759);
    assert_eq!(ledger.record(&at), None);
    assert_eq!(ledger.balance(&at), 0);
}

#[test]
fn closing_sweeps_the_whole_balance() {
    let (at, beneficiary) = (key(1), key(2));
    let mut ledger = Ledger::new(0);
    ledger.put(at, Account { balance: 77, space: 48, record: counter(key(3), 1) });
    ledger.put(beneficiary, Account { balance: 3, space: 0, record: Record::Empty });
    assert_eq!(close_and_sweep(&mut ledger, &at, &beneficiary), Ok(()));
    assert_eq!(ledger.balance(&at), 0);
    assert_eq!(ledger.balance(&beneficiary), 80);
    assert_eq!(ledger.record(&at), Some(&Record::Empty));
    assert_eq!(ledger.space(&at), 0);
}

#[test]
fn closing_fails_on_overflow_and_changes_nothing() {
    let (at, beneficiary) = (key(1), key(2));
    let mut ledger = Ledger::new(0);
    ledger.put(at, Account { balance: 77, space: 48, record: counter(key(3), 1) });
    ledger.put(beneficiary, Account { balance: u64::MAX - 76, space: 0, record: Record::Empty });
    assert_eq!(
        close_and_sweep(&mut ledger, &at, &beneficiary),
        Err(EngineError { kind: ErrorKind::Arithmetic, address: beneficiary })
    );
    assert_eq!(ledger.balance(&at), 77);
    assert_eq!(ledger.record(&at), Some(&counter(key(3), 1)));
}

#[test]
fn transaction_is_invisible_until_committed() {
    let (a, b) = (key(1), key(2));
    let mut ledger = Ledger::new(0);
    ledger.put(a, Account { balance: 10, space: 0, record: Record::Empty });
    let mut tx = Transaction::begin(&ledger);
    assert_eq!(tx.pay(&a, &b, 4), Ok(()));
    assert_eq!(tx.pay(&b, &a, 1), Ok(()));
    tx.write(b, 48, counter(a, 2));
    assert_eq!(tx.pay(&a, &b, 8), Err(EngineError { kind: ErrorKind::Arithmetic, address: a }));
    assert_eq!((tx.balance(&a), tx.balance(&b)), (7, 3));
    assert_eq!(tx.record(&b), Some(&counter(a, 2)));
    assert!(tx.is_empty(&a));
    assert_eq!((ledger.balance(&a), ledger.balance(&b)), (10, 0));
    let staged = tx.finish();
    assert_eq!(ledger.record(&b), None);
    ledger.commit(staged);
    assert_eq!((ledger.balance(&a), ledger.balance(&b)), (7, 3));
    assert_eq!(ledger.record(&b), Some(&counter(a, 2)));
    assert_eq!(ledger.space(&b), 48);
}

#[test]
fn paying_oneself_needs_the_amount_and_moves_nothing() {
    let a = key(1);
    let mut ledger = Ledger::new(0);
    ledger.put(a, Account { balance: 10, space: 0, record: Record::Empty });
    let mut tx = Transaction::begin(&ledger);
    assert_eq!(tx.pay(&a, &a, 10), Ok(()));
    assert_eq!(tx.balance(&a), 10);
    assert_eq!(tx.pay(&a, &a, 11), Err(EngineError { kind: ErrorKind::Arithmetic, address: a }));
    assert_eq!(tx.sweep(&a, &a), Ok(()));
    assert_eq!(tx.balance(&a), 10);
}
