use custody_engine::address;
use custody_engine::address::{Address, Seeds};
use custody_engine::error::ErrorKind;
use custody_engine::handle::AccountHandle;
use custody_engine::ledger::{Account, Ledger, Record};
use custody_engine::types::sell::{Sell, FLAT_CANCEL_FEE};
use custody_engine::types::token::TokenAccount;
use custody_engine::utils::sell_withdrawal::process_sell_withdrawal;

fn key(tag: u8) -> Address {
    Address::new([tag; 32])
}

fn derived(namespace: &str, issuer: Address, discriminant: Address) -> Address {
    address::derive(&Seeds { namespace, issuer, discriminant }).unwrap().0
}

struct Market {
    ledger: Ledger,
    program: Address,
    mint: Address,
    seller: Address,
    vault: Address,
    storage: Address,
    treasury: Address,
}

fn market(auction: u8, start_price: u64) -> Market {
    let program = key(7);
    let mint = key(8);
    let seller = key(1);
    let vault = derived("storage", program, mint);
    let storage = derived("storage", program, vault);
    let treasury = derived("share", program, program);
    let mut ledger = Ledger::new(0);
    ledger.put(
        vault,
        Account {
            balance: 5,
            space: 165,
            record: Record::Holding(TokenAccount { mint, owner: vault, amount: 1 }),
        },
    );
    ledger.put(
        storage,
        Account {
            balance: 10,
            space: 121,
            record: Record::Sale(Sell::listed(seller, vault, auction, start_price)),
        },
    );
    Market { ledger, program, mint, seller, vault, storage, treasury }
}

fn fund(ledger: &mut Ledger, who: Address, balance: u64) {
    ledger.put(who, Account { balance, space: 0, record: Record::Empty });
}

fn withdraw(
    m: &mut Market,
    caller: Address,
    destination: Address,
    applicant: Address,
) -> Result<(), custody_engine::error::EngineError> {
    process_sell_withdrawal(
        &mut m.ledger,
        &m.program,
        &AccountHandle::plain(m.mint),
        &AccountHandle::plain(m.seller),
        &AccountHandle::signer(caller),
        &AccountHandle::plain(destination),
        &AccountHandle::plain(m.vault),
        &AccountHandle::plain(m.storage),
        &AccountHandle::plain(applicant),
        &AccountHandle::plain(m.treasury),
    )
}

fn sale(ledger: &Ledger, at: &Address) -> Sell {
    match ledger.record(at) {
        Some(Record::Sale(record)) => *record,
        other => panic!("no sale record: {:?}", other),
    }
}

fn is_closed(ledger: &Ledger, at: &Address) -> bool {
    matches!(ledger.record(at), None | Some(Record::Empty)) && ledger.balance(at) == 0
}

#[test]
fn plain_sale_buyer_pays_price_and_fee() {
    let mut m = market(0, 100);
    let buyer = key(2);
    let destination = key(20);
    fund(&mut m.ledger, buyer, 1000);
    let seller = m.seller;
    assert_eq!(withdraw(&mut m, buyer, destination, seller), Ok(()));
    assert_eq!(m.ledger.balance(&buyer), 1000 - 100 - 1);
    assert_eq!(m.ledger.balance(&m.seller), 100);
    assert_eq!(m.ledger.balance(&m.treasury), 1 + 5 + 10);
    assert_eq!(
        m.ledger.record(&destination),
        Some(&Record::Holding(TokenAccount { mint: m.mint, owner: buyer, amount: 1 }))
    );
    assert!(is_closed(&m.ledger, &m.vault));
    assert!(is_closed(&m.ledger, &m.storage));
}

#[test]
fn plain_sale_seller_takes_the_token_back_for_free() {
    let mut m = market(0, 100);
    let seller = m.seller;
    let destination = key(20);
    fund(&mut m.ledger, seller, 3);
    assert_eq!(withdraw(&mut m, seller, destination, seller), Ok(()));
    assert_eq!(m.ledger.balance(&seller), 3);
    assert_eq!(m.ledger.balance(&m.treasury), 5 + 10);
    assert_eq!(
        m.ledger.record(&destination),
        Some(&Record::Holding(TokenAccount { mint: m.mint, owner: seller, amount: 1 }))
    );
}

#[test]
fn plain_sale_without_funds_changes_nothing() {
    let mut m = market(0, 100);
    let buyer = key(2);
    fund(&mut m.ledger, buyer, 100);
    let seller = m.seller;
    let refused = withdraw(&mut m, buyer, key(20), seller).unwrap_err();
    assert_eq!(refused.kind, ErrorKind::Arithmetic);
    assert_eq!(refused.address, buyer);
    assert_eq!(m.ledger.balance(&buyer), 100);
    assert_eq!(m.ledger.balance(&m.treasury), 0);
    assert_eq!(m.ledger.balance(&m.storage), 10);
    assert_eq!(sale(&m.ledger, &m.storage), Sell::listed(m.seller, m.vault, 0, 100));
}

#[test]
fn first_bid_pays_the_start_price_and_the_second_one_hundredth_more() {
    let start = 100 * FLAT_CANCEL_FEE;
    let mut m = market(1, start);
    let (first, second) = (key(2), key(3));
    fund(&mut m.ledger, first, 2 * start);
    fund(&mut m.ledger, second, 2 * start);
    let seller = m.seller;

    assert_eq!(withdraw(&mut m, first, key(20), seller), Ok(()));
    assert_eq!(m.ledger.balance(&first), 2 * start - start);
    assert_eq!(m.ledger.balance(&m.storage), 10 + start);
    let record = sale(&m.ledger, &m.storage);
    assert_eq!((record.price, record.applicant, record.bets), (start, first, 1));

    assert_eq!(withdraw(&mut m, second, key(21), first), Ok(()));
    let raised = start + start / 100;
    assert_eq!(m.ledger.balance(&second), 2 * start - raised);
    assert_eq!(m.ledger.balance(&first), start + (start - FLAT_CANCEL_FEE));
    assert_eq!(m.ledger.balance(&m.storage), 10 + raised + FLAT_CANCEL_FEE);
    let record = sale(&m.ledger, &m.storage);
    assert_eq!((record.price, record.applicant, record.bets), (raised, second, 2));
    assert_eq!(record.start_price, start);
}

#[test]
fn first_bid_at_one_hundred_pays_exactly_one_hundred() {
    let mut m = market(1, 100);
    let first = key(2);
    fund(&mut m.ledger, first, 500);
    let seller = m.seller;
    assert_eq!(withdraw(&mut m, first, key(20), seller), Ok(()));
    assert_eq!(m.ledger.balance(&first), 400);
    let record = sale(&m.ledger, &m.storage);
    assert_eq!((record.price, record.applicant, record.bets), (100, first, 1));
}

#[test]
fn outbidding_fails_where_the_refund_would_be_negative() {
    let mut m = market(1, 100);
    let (first, second) = (key(2), key(3));
    fund(&mut m.ledger, first, 500);
    fund(&mut m.ledger, second, 500);
    let seller = m.seller;
    assert_eq!(withdraw(&mut m, first, key(20), seller), Ok(()));
    let refused = withdraw(&mut m, second, key(21), first).unwrap_err();
    assert_eq!(refused.kind, ErrorKind::Arithmetic);
    assert_eq!(refused.address, m.storage);
    assert_eq!(m.ledger.balance(&second), 500);
    assert_eq!(m.ledger.balance(&first), 400);
    let record = sale(&m.ledger, &m.storage);
    assert_eq!((record.price, record.applicant, record.bets), (100, first, 1));
}

#[test]
fn seller_settles_the_auction_on_the_highest_bid() {
    let mut m = market(1, 100);
    let winner = key(3);
    let destination = key(21);
    m.ledger.put(
        m.storage,
        Account {
            balance: 10 + 101,
            space: 121,
            record: Record::Sale(Sell {
                applicant: winner,
                auction: 1,
                bets: 2,
                price: 101,
                seller: m.seller,
                start_price: 100,
                vault: m.vault,
            }),
        },
    );
    let seller = m.seller;
    assert_eq!(withdraw(&mut m, seller, destination, winner), Ok(()));
    assert_eq!(
        m.ledger.record(&destination),
        Some(&Record::Holding(TokenAccount { mint: m.mint, owner: winner, amount: 1 }))
    );
    assert_eq!(m.ledger.balance(&seller), 101 - 1);
    assert_eq!(m.ledger.balance(&m.treasury), 5 + 10 + 1);
    assert!(is_closed(&m.ledger, &m.storage));
    assert!(is_closed(&m.ledger, &m.vault));
}

#[test]
fn seller_settles_after_two_bids() {
    let start = 100 * FLAT_CANCEL_FEE;
    let mut m = market(1, start);
    let (first, second) = (key(2), key(3));
    fund(&mut m.ledger, first, 2 * start);
    fund(&mut m.ledger, second, 2 * start);
    let seller = m.seller;
    assert_eq!(withdraw(&mut m, first, key(20), seller), Ok(()));
    assert_eq!(withdraw(&mut m, second, key(21), first), Ok(()));
    let raised = start + start / 100;
    assert_eq!(withdraw(&mut m, seller, key(22), second), Ok(()));
    assert_eq!(
        m.ledger.record(&key(22)),
        Some(&Record::Holding(TokenAccount { mint: m.mint, owner: second, amount: 1 }))
    );
    assert_eq!(m.ledger.balance(&seller), raised - raised / 100);
    assert_eq!(m.ledger.balance(&m.treasury), 5 + 10 + FLAT_CANCEL_FEE + raised / 100);
    assert!(is_closed(&m.ledger, &m.storage));
}

#[test]
fn closing_to_a_holding_of_somebody_else_is_refused() {
    let mut m = market(1, 100);
    let winner = key(3);
    m.ledger.put(
        m.storage,
        Account {
            balance: 10 + 101,
            space: 121,
            record: Record::Sale(Sell {
                applicant: winner,
                auction: 1,
                bets: 2,
                price: 101,
                seller: m.seller,
                start_price: 100,
                vault: m.vault,
            }),
        },
    );
    let seller = m.seller;
    let refused = withdraw(&mut m, seller, key(21), seller).unwrap_err();
    assert_eq!(refused.kind, ErrorKind::State);
    assert_eq!(refused.address, key(21));
    assert_eq!(m.ledger.balance(&m.storage), 111);
    assert_eq!(m.ledger.balance(&m.vault), 5);
    assert_eq!(m.ledger.record(&key(21)), None);
}

#[test]
fn auction_without_bids_returns_the_token_to_the_seller() {
    let mut m = market(1, 100);
    let seller = m.seller;
    assert_eq!(withdraw(&mut m, seller, key(21), seller), Ok(()));
    assert_eq!(
        m.ledger.record(&key(21)),
        Some(&Record::Holding(TokenAccount { mint: m.mint, owner: seller, amount: 1 }))
    );
    assert_eq!(m.ledger.balance(&seller), 0);
    assert_eq!(m.ledger.balance(&m.treasury), 15);
}

#[test]
fn cancelling_refunds_the_bid_less_the_flat_fee_and_restarts() {
    let start = 3 * FLAT_CANCEL_FEE;
    let mut m = market(1, start);
    let bidder = key(2);
    fund(&mut m.ledger, bidder, start);
    let seller = m.seller;
    assert_eq!(withdraw(&mut m, bidder, key(20), seller), Ok(()));
    assert_eq!(m.ledger.balance(&bidder), 0);
    assert_eq!(withdraw(&mut m, bidder, key(20), bidder), Ok(()));
    assert_eq!(m.ledger.balance(&bidder), start - FLAT_CANCEL_FEE);
    assert_eq!(m.ledger.balance(&m.storage), 10 + FLAT_CANCEL_FEE);
    assert_eq!(sale(&m.ledger, &m.storage), Sell::listed(m.seller, m.vault, 1, start));
    assert_eq!(m.ledger.balance(&m.vault), 5);
}

#[test]
fn withdrawal_needs_the_callers_signature() {
    let mut m = market(0, 100);
    let buyer = key(2);
    fund(&mut m.ledger, buyer, 1000);
    let refused = process_sell_withdrawal(
        &mut m.ledger,
        &m.program,
        &AccountHandle::plain(m.mint),
        &AccountHandle::plain(m.seller),
        &AccountHandle::plain(buyer),
        &AccountHandle::plain(key(20)),
        &AccountHandle::plain(m.vault),
        &AccountHandle::plain(m.storage),
        &AccountHandle::plain(m.seller),
        &AccountHandle::plain(m.treasury),
    )
    .unwrap_err();
    assert_eq!(refused.kind, ErrorKind::Authorization);
    assert_eq!(refused.address, buyer);
}

#[test]
fn withdrawal_rejects_a_treasury_that_is_not_derived() {
    let mut m = market(0, 100);
    let buyer = key(2);
    fund(&mut m.ledger, buyer, 1000);
    m.treasury = key(66);
    let seller = m.seller;
    let refused = withdraw(&mut m, buyer, key(20), seller).unwrap_err();
    assert_eq!(refused.kind, ErrorKind::AddressMismatch);
    assert_eq!(refused.address, key(66));
    assert_eq!(m.ledger.balance(&buyer), 1000);
}

#[test]
fn withdrawal_rejects_a_record_at_a_foreign_address() {
    let mut m = market(0, 100);
    let buyer = key(2);
    fund(&mut m.ledger, buyer, 1000);
    let forged = key(55);
    m.ledger.put(
        forged,
        Account {
            balance: 10,
            space: 121,
            record: Record::Sale(Sell::listed(m.seller, m.vault, 0, 1)),
        },
    );
    m.storage = forged;
    let seller = m.seller;
    let refused = withdraw(&mut m, buyer, key(20), seller).unwrap_err();
    assert_eq!(refused.kind, ErrorKind::AddressMismatch);
    assert_eq!(refused.address, forged);
}

#[test]
fn withdrawal_on_a_missing_record_is_a_state_error() {
    let mut m = market(0, 100);
    let buyer = key(2);
    fund(&mut m.ledger, buyer, 1000);
    let seller = m.seller;
    assert_eq!(withdraw(&mut m, buyer, key(20), seller), Ok(()));
    let refused = withdraw(&mut m, buyer, key(20), seller).unwrap_err();
    assert_eq!(refused.kind, ErrorKind::State);
    assert_eq!(refused.address, m.storage);
}

#[test]
fn plain_sale_into_a_holding_of_somebody_else_is_refused() {
    let mut m = market(0, 100);
    let buyer = key(2);
    let destination = key(20);
    fund(&mut m.ledger, buyer, 1000);
    m.ledger.put(
        destination,
        Account {
            balance: 4,
            space: 165,
            record: Record::Holding(TokenAccount { mint: m.mint, owner: key(30), amount: 2 }),
        },
    );
    let seller = m.seller;
    let refused = withdraw(&mut m, buyer, destination, seller).unwrap_err();
    assert_eq!(refused.kind, ErrorKind::State);
    assert_eq!(refused.address, destination);
    assert_eq!(m.ledger.balance(&buyer), 1000);
    assert_eq!(m.ledger.balance(&m.seller), 0);
    assert_eq!(m.ledger.balance(&m.treasury), 0);
    assert_eq!(m.ledger.balance(&m.vault), 5);
    assert_eq!(
        m.ledger.record(&destination),
        Some(&Record::Holding(TokenAccount { mint: m.mint, owner: key(30), amount: 2 }))
    );
    assert_eq!(
        m.ledger.record(&m.vault),
        Some(&Record::Holding(TokenAccount { mint: m.mint, owner: m.vault, amount: 1 }))
    );
    assert_eq!(sale(&m.ledger, &m.storage), Sell::listed(m.seller, m.vault, 0, 100));
}

#[test]
fn plain_sale_into_a_holding_of_the_buyer_adds_the_token() {
    let mut m = market(0, 100);
    let buyer = key(2);
    let destination = key(20);
    fund(&mut m.ledger, buyer, 1000);
    m.ledger.put(
        destination,
        Account {
            balance: 4,
            space: 165,
            record: Record::Holding(TokenAccount { mint: m.mint, owner: buyer, amount: 2 }),
        },
    );
    let seller = m.seller;
    assert_eq!(withdraw(&mut m, buyer, destination, seller), Ok(()));
    assert_eq!(
        m.ledger.record(&destination),
        Some(&Record::Holding(TokenAccount { mint: m.mint, owner: buyer, amount: 3 }))
    );
    assert_eq!(m.ledger.balance(&destination), 4);
    assert_eq!(m.ledger.balance(&buyer), 1000 - 101);
}

#[test]
fn plain_sale_funds_a_new_destination_at_the_rent() {
    let mut m = market(0, 100);
    let mut ledger = Ledger::new(3);
    for at in [m.vault, m.storage] {
        ledger.put(
            at,
            Account {
                balance: m.ledger.balance(&at),
                space: m.ledger.space(&at),
                record: m.ledger.record(&at).unwrap().clone(),
            },
        );
    }
    m.ledger = ledger;
    let buyer = key(2);
    fund(&mut m.ledger, buyer, 2000);
    let seller = m.seller;
    assert_eq!(withdraw(&mut m, buyer, key(20), seller), Ok(()));
    let funding = 3 * (128 + 165);
    assert_eq!(m.ledger.balance(&key(20)), funding);
    assert_eq!(m.ledger.balance(&buyer), 2000 - 100 - 1 - funding);
    assert_eq!(m.ledger.balance(&m.seller), 100);
    assert_eq!(m.ledger.balance(&m.treasury), 1 + 5 + 10);
}

#[test]
fn negative_refund_is_an_arithmetic_error_whatever_the_applicant_handle() {
    let mut m = market(1, 100);
    let (first, second) = (key(2), key(3));
    fund(&mut m.ledger, first, 500);
    fund(&mut m.ledger, second, 500);
    let seller = m.seller;
    assert_eq!(withdraw(&mut m, first, key(20), seller), Ok(()));
    for handle in [first, seller, key(77)] {
        let bid = withdraw(&mut m, second, key(21), handle).unwrap_err();
        assert_eq!((bid.kind, bid.address), (ErrorKind::Arithmetic, m.storage));
        let cancel = withdraw(&mut m, first, key(20), handle).unwrap_err();
        assert_eq!((cancel.kind, cancel.address), (ErrorKind::Arithmetic, m.storage));
    }
    assert_eq!(m.ledger.balance(&first), 400);
    assert_eq!(m.ledger.balance(&second), 500);
    assert_eq!(m.ledger.balance(&m.storage), 110);
    let record = sale(&m.ledger, &m.storage);
    assert_eq!((record.price, record.applicant, record.bets), (100, first, 1));
}

#[test]
fn bid_names_the_applicant_of_the_record() {
    let start = 3 * FLAT_CANCEL_FEE;
    let mut m = market(1, start);
    let (first, second) = (key(2), key(3));
    fund(&mut m.ledger, first, 2 * start);
    fund(&mut m.ledger, second, 2 * start);
    let seller = m.seller;
    let refused = withdraw(&mut m, first, key(20), key(77)).unwrap_err();
    assert_eq!((refused.kind, refused.address), (ErrorKind::AddressMismatch, key(77)));
    assert_eq!(withdraw(&mut m, first, key(20), seller), Ok(()));
    let refused = withdraw(&mut m, second, key(21), second).unwrap_err();
    assert_eq!((refused.kind, refused.address), (ErrorKind::AddressMismatch, second));
    let refused = withdraw(&mut m, first, key(20), seller).unwrap_err();
    assert_eq!((refused.kind, refused.address), (ErrorKind::AddressMismatch, seller));
    assert_eq!(m.ledger.balance(&second), 2 * start);
    assert_eq!(m.ledger.balance(&first), start);
}
