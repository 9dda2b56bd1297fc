use custody_engine::address;
use custody_engine::address::{Address, Seeds};
use custody_engine::error::{EngineError, ErrorKind};
use custody_engine::handle::AccountHandle;
use custody_engine::ledger::{Account, Ledger, Record};
use custody_engine::types::lottery::{Lottery, Prize};
use custody_engine::types::metadata::{CreateMetadataArgs, Data, Metadata};
use custody_engine::types::nft_lottery::{BoxClaim, BoxData, BoxKind, Lot, NftLottery, SaveToken};
use custody_engine::types::token::{TokenAccount, TokenMint};
use custody_engine::utils::save_token::{describe, process_save_token};

fn key(tag: u8) -> Address {
    Address::new([tag; 32])
}

fn derived(namespace: &str, issuer: Address, discriminant: Address) -> Address {
    address::derive(&Seeds { namespace, issuer, discriminant }).unwrap().0
}

fn text(of: Address) -> String {
    solana_program::pubkey::Pubkey::new_from_array(of.bytes).to_string()
}

struct Setup {
    ledger: Ledger,
    program: Address,
    payer: Address,
    owner: Address,
    burned: Address,
    box_record: Address,
    mint: Address,
    holding: Address,
    treasury: Address,
    session: Address,
    provenance: Address,
    seed: String,
}

fn the_box(s: &Setup, kind: BoxKind, index: u32) -> BoxData {
    BoxData {
        seed: s.seed.clone(),
        owner: s.owner,
        storage: s.session,
        index,
        is_box: kind,
        token: key(0),
    }
}

fn setup(seed: &str, kind: BoxKind, index: u32, supply: u64) -> Setup {
    let program = key(7);
    let (payer, owner, burned, mint, holding) = (key(1), key(2), key(3), key(4), key(5));
    let mut s = Setup {
        ledger: Ledger::new(0),
        program,
        payer,
        owner,
        burned,
        box_record: derived(seed, program, burned),
        mint,
        holding,
        treasury: derived("share", program, program),
        session: derived(seed, program, owner),
        provenance: derived(seed, program, mint),
        seed: String::from(seed),
    };
    let record = the_box(&s, kind, index);
    s.ledger.put(s.box_record, Account { balance: 30, space: 120, record: Record::Box(record) });
    s.ledger.put(
        burned,
        Account { balance: 2, space: 82, record: Record::Mint(TokenMint { supply, decimals: 0 }) },
    );
    let session = if seed == "lottery" {
        Record::Lottery(Lottery {
            owner,
            lots: vec![Prize { wins: 1 }],
            create_box: 1,
            url: String::from("https://example.org/"),
        })
    } else {
        Record::NftLottery(NftLottery {
            owner,
            lots: vec![Lot { wins: 1, collect: vec![key(60)] }],
            create_box: 1,
            url: String::from("https://example.org/"),
            pictures: vec![key(60), key(61)],
        })
    };
    s.ledger.put(s.session, Account { balance: 50, space: 300, record: session });
    s.ledger.put(payer, Account { balance: 1000, space: 0, record: Record::Empty });
    s
}

fn handles(s: &Setup) -> Vec<AccountHandle> {
    vec![
        AccountHandle::signer(s.payer),
        AccountHandle::plain(s.burned),
        AccountHandle::plain(s.box_record),
        AccountHandle::plain(s.mint),
        AccountHandle::plain(s.holding),
        AccountHandle::plain(key(100)),
        AccountHandle::plain(key(101)),
        AccountHandle::plain(s.treasury),
        AccountHandle::plain(s.session),
        AccountHandle::plain(s.provenance),
        AccountHandle::plain(key(102)),
        AccountHandle::plain(key(103)),
        AccountHandle::plain(key(104)),
        AccountHandle::plain(key(105)),
    ]
}

fn claim(s: &Setup) -> SaveToken {
    SaveToken { box_data: BoxClaim { seed: s.seed.clone(), owner: s.owner }, metaplex: 1 }
}

fn redeem(s: &mut Setup) -> Result<CreateMetadataArgs, EngineError> {
    let accounts = handles(s);
    let data = claim(s);
    let program = s.program;
    process_save_token(&mut s.ledger, &program, &accounts, data)
}

fn descriptor(kind: &str, name: &str, symbol: &str, uri: String) -> CreateMetadataArgs {
    CreateMetadataArgs {
        metadata: Metadata {
            instruction: 0,
            data: Data {
                name: String::from(name),
                symbol: String::from(symbol),
                uri,
                seller_fee_basis_points: 0,
                creators: None,
            },
            is_mutable: 0,
        },
        kind: String::from(kind),
        metaplex: 1,
    }
}

#[test]
fn burned_box_is_redeemed_once() {
    let mut s = setup("lottery", BoxKind::Reveal, 0, 0);
    let args = redeem(&mut s).unwrap();
    assert_eq!(
        args,
        descriptor(
            "lottery_box",
            "SOL in Box",
            "BOX",
            format!("https://example.org/meta/{}", text(s.session)),
        )
    );
    assert_eq!(s.ledger.record(&s.box_record), Some(&Record::Empty));
    assert_eq!(s.ledger.balance(&s.box_record), 0);
    assert_eq!(s.ledger.balance(&s.treasury), 30);
    let mut kept = the_box(&s, BoxKind::Reveal, 0);
    kept.token = s.mint;
    assert_eq!(s.ledger.record(&s.provenance), Some(&Record::Box(kept)));
    assert_eq!(s.ledger.space(&s.provenance), 105 + 7);
    assert_eq!(
        s.ledger.record(&s.mint),
        Some(&Record::Mint(TokenMint { supply: 1, decimals: 0 }))
    );
    assert_eq!(
        s.ledger.record(&s.holding),
        Some(&Record::Holding(TokenAccount { mint: s.mint, owner: s.payer, amount: 1 }))
    );
    assert_eq!(s.ledger.balance(&s.payer), 1000);

    s.mint = key(40);
    s.holding = key(41);
    s.provenance = derived("lottery", s.program, s.mint);
    let again = redeem(&mut s).unwrap_err();
    assert_eq!(again, EngineError { kind: ErrorKind::State, address: s.box_record });
    assert_eq!(s.ledger.record(&key(40)), None);
}

#[test]
fn redemption_pays_the_rent_of_what_it_creates() {
    let mut s = setup("lottery", BoxKind::Reveal, 0, 0);
    let mut ledger = Ledger::new(2);
    for at in [s.box_record, s.burned, s.session, s.payer] {
        ledger.put(
            at,
            Account {
                balance: s.ledger.balance(&at),
                space: s.ledger.space(&at),
                record: s.ledger.record(&at).unwrap().clone(),
            },
        );
    }
    ledger.put(s.payer, Account { balance: 5000, space: 0, record: Record::Empty });
    s.ledger = ledger;
    redeem(&mut s).unwrap();
    let record = 2 * (128 + 105 + 7);
    let mint = 2 * (128 + 82);
    let holding = 2 * (128 + 165);
    assert_eq!(s.ledger.balance(&s.provenance), record);
    assert_eq!(s.ledger.balance(&s.mint), mint);
    assert_eq!(s.ledger.balance(&s.holding), holding);
    assert_eq!(s.ledger.balance(&s.payer), 5000 - record - mint - holding);
}

#[test]
fn box_whose_token_still_circulates_is_not_redeemed() {
    let mut s = setup("lottery", BoxKind::Reveal, 0, 1);
    let refused = redeem(&mut s).unwrap_err();
    assert_eq!(refused, EngineError { kind: ErrorKind::State, address: s.burned });
    assert_eq!(s.ledger.record(&s.box_record), Some(&Record::Box(the_box(&s, BoxKind::Reveal, 0))));
    assert_eq!(s.ledger.balance(&s.box_record), 30);
    assert_eq!(s.ledger.record(&s.mint), None);
    assert_eq!(s.ledger.record(&s.provenance), None);
}

#[test]
fn multi_slot_box_reveals_a_generic_box() {
    let mut s = setup("nft_lottery", BoxKind::Reveal, 0, 0);
    let args = redeem(&mut s).unwrap();
    assert_eq!(
        args,
        descriptor(
            "nft_box",
            "NFT in Box",
            "BOX",
            format!("https://example.org/meta/{}", text(s.session)),
        )
    );
    assert_eq!(s.ledger.space(&s.provenance), 105 + 11);
}

#[test]
fn indexed_box_names_its_item() {
    let mut s = setup("nft_lottery", BoxKind::Indexed, 1, 0);
    let args = redeem(&mut s).unwrap();
    assert_eq!(
        args,
        descriptor(
            "nft_box",
            "NFT in Box",
            "NIB",
            format!("https://example.org/meta/{}", text(key(61))),
        )
    );
}

#[test]
fn indexed_box_beyond_the_items_is_a_state_error() {
    let mut s = setup("nft_lottery", BoxKind::Indexed, 2, 0);
    let refused = redeem(&mut s).unwrap_err();
    assert_eq!(refused, EngineError { kind: ErrorKind::State, address: s.session });
    assert_eq!(s.ledger.balance(&s.box_record), 30);
}

#[test]
fn box_of_an_unknown_family_is_forged() {
    let mut s = setup("lotto", BoxKind::Reveal, 0, 0);
    let refused = redeem(&mut s).unwrap_err();
    assert_eq!(refused, EngineError { kind: ErrorKind::State, address: s.box_record });
    assert_eq!(s.ledger.balance(&s.box_record), 30);
}

#[test]
fn redemption_holds_every_address_against_its_seeds() {
    let mut s = setup("lottery", BoxKind::Reveal, 0, 0);
    let record = the_box(&s, BoxKind::Reveal, 0);
    let moved = key(70);
    s.ledger.put(moved, Account { balance: 30, space: 120, record: Record::Box(record) });
    let honest = s.box_record;
    s.box_record = moved;
    assert_eq!(
        redeem(&mut s).unwrap_err(),
        EngineError { kind: ErrorKind::AddressMismatch, address: moved }
    );
    s.box_record = honest;

    let session = s.session;
    s.session = key(71);
    assert_eq!(
        redeem(&mut s).unwrap_err(),
        EngineError { kind: ErrorKind::AddressMismatch, address: key(71) }
    );
    s.session = session;

    let treasury = s.treasury;
    s.treasury = key(72);
    assert_eq!(
        redeem(&mut s).unwrap_err(),
        EngineError { kind: ErrorKind::AddressMismatch, address: key(72) }
    );
    s.treasury = treasury;

    let provenance = s.provenance;
    s.provenance = key(73);
    assert_eq!(
        redeem(&mut s).unwrap_err(),
        EngineError { kind: ErrorKind::AddressMismatch, address: key(73) }
    );
    s.provenance = provenance;
    assert_eq!(s.ledger.balance(&s.box_record), 30);
    assert!(redeem(&mut s).is_ok());
}

#[test]
fn redemption_rejects_a_false_claim_and_a_missing_signature() {
    let mut s = setup("lottery", BoxKind::Reveal, 0, 0);
    let accounts = handles(&s);
    let false_claim =
        SaveToken { box_data: BoxClaim { seed: s.seed.clone(), owner: key(99) }, metaplex: 1 };
    let program = s.program;
    assert_eq!(
        process_save_token(&mut s.ledger, &program, &accounts, false_claim).unwrap_err(),
        EngineError { kind: ErrorKind::AddressMismatch, address: s.box_record }
    );
    let mut unsigned = handles(&s);
    unsigned[0] = AccountHandle::plain(s.payer);
    let (first, second) = (claim(&s), claim(&s));
    assert_eq!(
        process_save_token(&mut s.ledger, &program, &unsigned, first).unwrap_err(),
        EngineError { kind: ErrorKind::Authorization, address: s.payer }
    );
    assert_eq!(
        process_save_token(&mut s.ledger, &program, &accounts[..13], second).unwrap_err(),
        EngineError { kind: ErrorKind::AddressMismatch, address: program }
    );
}

#[test]
fn failed_mint_keeps_the_box() {
    let mut s = setup("lottery", BoxKind::Reveal, 0, 0);
    s.ledger.put(
        s.mint,
        Account { balance: 1, space: 82, record: Record::Mint(TokenMint { supply: 1, decimals: 0 }) },
    );
    let refused = redeem(&mut s).unwrap_err();
    assert_eq!(refused, EngineError { kind: ErrorKind::ExternalService, address: s.mint });
    assert_eq!(s.ledger.record(&s.box_record), Some(&Record::Box(the_box(&s, BoxKind::Reveal, 0))));
    assert_eq!(s.ledger.balance(&s.box_record), 30);
    assert_eq!(s.ledger.record(&s.provenance), None);
    assert_eq!(s.ledger.balance(&s.treasury), 0);
}

#[test]
fn descriptor_joins_prefix_and_item() {
    let args = describe(
        "nft_box",
        "NFT in Box",
        "NIB",
        &String::from("https://example.org/"),
        &String::from("item"),
        1,
    );
    assert_eq!(
        args,
        descriptor("nft_box", "NFT in Box", "NIB", String::from("https://example.org/meta/item"))
    );
}
