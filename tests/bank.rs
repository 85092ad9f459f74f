use native_bank::bank::{derive_asset_id, InvokeContext, NativeBankContract, NativeBankContractError};
use native_bank::cycles::{consume_cycles, get_cycles, CyclesAction, CyclesError, BANK_REGISTER_CYCLES};
use native_bank::error::ProtocolError;
use native_bank::store::AssetStore;
use native_bank::types::{Asset, ContractAddress, ContractType};

fn hex(bytes: &[u8]) -> String {
    bytes.iter().map(|b| format!("{:02x}", b)).collect()
}

fn chain(byte: u8) -> native_bank::types::Hash {
    native_bank::types::Hash::from_bytes([byte; 32])
}

fn asset_address(byte: u8) -> ContractAddress {
    ContractAddress::new(ContractType::Asset, [byte; 20])
}

fn ctx(used: u64, price: u64, limit: u64) -> InvokeContext {
    InvokeContext { cycles_used: used, cycles_price: price, cycles_limit: limit }
}

fn bank(byte: u8) -> NativeBankContract {
    NativeBankContract::new(chain(byte), AssetStore::new())
}

#[test]
fn empty_hash_is_digest_of_null_rlp() {
    let h = native_bank::types::Hash::from_empty();
    assert_eq!(
        hex(&h.as_bytes()),
        "56e81f171bcc55a6ff8345e692c0f86e5b48e01b996cadc001622fb5e363b421"
    );
}

#[test]
fn digest_of_empty_input() {
    let h = native_bank::types::Hash::digest(&Vec::new());
    assert_eq!(
        hex(&h.as_bytes()),
        "c5d2460186f7233c927e7db2dcc703c0e500b653ca82273b7bfad8045d85a470"
    );
}

#[test]
fn address_bytes_lead_with_type_tag() {
    let a = ContractAddress::new(ContractType::Asset, [7u8; 20]);
    let b = a.as_bytes();
    assert_eq!(b.len(), 21);
    assert_eq!(b[0], 0x21);
    assert!(b[1..].iter().all(|x| *x == 7));
    assert_eq!(ContractAddress::new(ContractType::App, [0u8; 20]).as_bytes()[0], 0x22);
}

#[test]
fn asset_id_is_digest_of_chain_then_address() {
    let c = chain(1);
    let a = asset_address(2);
    let mut data: Vec<u8> = c.as_bytes().to_vec();
    data.extend_from_slice(&a.as_bytes());
    let expected = native_bank::types::Hash::digest(&data);
    assert_eq!(derive_asset_id(&c, &a), expected);
    let mut swapped: Vec<u8> = a.as_bytes();
    swapped.extend_from_slice(&c.as_bytes());
    assert_ne!(derive_asset_id(&c, &a), native_bank::types::Hash::digest(&swapped));
}

#[test]
fn asset_id_is_deterministic() {
    let first = derive_asset_id(&chain(3), &asset_address(4));
    let second = derive_asset_id(&chain(3), &asset_address(4));
    assert_eq!(first.as_bytes(), second.as_bytes());
    assert_ne!(first, derive_asset_id(&chain(5), &asset_address(4)));
    assert_ne!(first, derive_asset_id(&chain(3), &asset_address(6)));
}

#[test]
fn register_then_get_round_trip() {
    let mut b = bank(1);
    let mut c = ctx(0, 1, 1_000_000);
    let addr = asset_address(9);
    let asset = b.register(&mut c, &addr, "Foo".to_string(), "FOO".to_string(), 1000).unwrap();
    let got = b.get_asset(&c, &asset.id).unwrap();
    assert_eq!(got.id, derive_asset_id(&chain(1), &addr));
    assert_eq!(got.name, "Foo");
    assert_eq!(got.symbol, "FOO");
    assert_eq!(got.supply, 1000);
    assert_eq!(got.manage_contract, addr);
    assert_eq!(got.storage_root, native_bank::types::Hash::from_empty());
}

#[test]
fn second_register_reports_existing_id() {
    let mut b = bank(1);
    let mut c = ctx(0, 1, 1_000_000);
    let addr = asset_address(9);
    let first = b.register(&mut c, &addr, "Foo".to_string(), "FOO".to_string(), 1000).unwrap();
    let used = c.cycles_used;
    let second = b.register(&mut c, &addr, "Bar".to_string(), "BAR".to_string(), 5);
    match second {
        Err(ProtocolError::Executor(NativeBankContractError::AssetExists { id })) => {
            assert_eq!(id, first.id)
        },
        other => panic!("unexpected result {:?}", other),
    }
    assert_eq!(c.cycles_used, used);
    assert_eq!(b.get_asset(&c, &first.id).unwrap().name, "Foo");
}

#[test]
fn register_rejects_non_asset_address() {
    for t in [ContractType::App, ContractType::Library, ContractType::Native] {
        let mut b = bank(1);
        let mut c = ctx(10, 1, 1_000_000);
        let addr = ContractAddress::new(t, [9u8; 20]);
        let r = b.register(&mut c, &addr, "Foo".to_string(), "FOO".to_string(), 1000);
        assert!(matches!(r, Err(ProtocolError::Executor(NativeBankContractError::InvalidAddress))));
        assert_eq!(c, ctx(10, 1, 1_000_000));
        let id = derive_asset_id(&chain(1), &addr);
        assert!(!b.state_adapter().contains(&id));
    }
}

#[test]
fn get_unknown_id_is_not_found() {
    let b = bank(1);
    let c = ctx(7, 3, 100);
    let id = chain(42);
    match b.get_asset(&c, &id) {
        Err(ProtocolError::Executor(NativeBankContractError::NotFound { id: e })) => {
            assert_eq!(e, id)
        },
        other => panic!("unexpected result {:?}", other),
    }
    assert_eq!(c, ctx(7, 3, 100));
}

#[test]
fn register_charges_exact_cost() {
    let mut b = bank(1);
    let mut c = ctx(100, 3, 1_000_000);
    b.register(&mut c, &asset_address(1), "A".to_string(), "A".to_string(), 1).unwrap();
    assert_eq!(c.cycles_used, 100 + 3 * 21000);
    assert_eq!(c.cycles_price, 3);
    assert_eq!(c.cycles_limit, 1_000_000);
}

#[test]
fn register_at_exact_limit_succeeds() {
    let mut b = bank(1);
    let mut c = ctx(0, 2, 42000);
    assert!(b.register(&mut c, &asset_address(1), "A".to_string(), "A".to_string(), 1).is_ok());
    assert_eq!(c.cycles_used, 42000);
}

#[test]
fn register_over_limit_charges_nothing_and_keeps_staged_record() {
    let mut b = bank(1);
    let mut c = ctx(5, 2, 42000);
    let addr = asset_address(1);
    let r = b.register(&mut c, &addr, "A".to_string(), "A".to_string(), 1);
    assert!(matches!(r, Err(ProtocolError::Cycles(CyclesError::OutOfCycles))));
    assert_eq!(c, ctx(5, 2, 42000));
    let id = derive_asset_id(&chain(1), &addr);
    assert_eq!(b.get_asset(&c, &id).unwrap().name, "A");
}

#[test]
fn staged_register_invisible_to_other_session() {
    let mut b = bank(1);
    let mut c = ctx(0, 1, 1_000_000);
    let asset = b.register(&mut c, &asset_address(1), "A".to_string(), "A".to_string(), 1).unwrap();
    let other = NativeBankContract::new(chain(1), b.state_adapter().open_session());
    assert!(matches!(
        other.get_asset(&c, &asset.id),
        Err(ProtocolError::Executor(NativeBankContractError::NotFound { .. }))
    ));
    b.commit();
    let after = NativeBankContract::new(chain(1), b.state_adapter().open_session());
    assert_eq!(after.get_asset(&c, &asset.id).unwrap().symbol, "A");
}

#[test]
fn store_revert_drops_staged_records() {
    let mut b = bank(1);
    let mut c = ctx(0, 1, 1_000_000);
    let first = b.register(&mut c, &asset_address(1), "A".to_string(), "A".to_string(), 1).unwrap();
    b.commit();
    let mut store = b.state_adapter().open_session();
    let staged = Asset {
        id: chain(77),
        name: "B".to_string(),
        symbol: "B".to_string(),
        supply: 2,
        manage_contract: asset_address(2),
        storage_root: native_bank::types::Hash::from_empty(),
    };
    store.insert_cache(staged.copied());
    assert_eq!(store.get(&staged.id).unwrap().name, "B");
    assert!(!b.state_adapter().contains(&staged.id));
    store.revert_cache();
    assert!(!store.contains(&staged.id));
    assert_eq!(store.get(&first.id).unwrap().name, "A");
}

#[test]
fn consume_cycles_adds_or_refuses() {
    assert_eq!(get_cycles(CyclesAction::BankRegister), BANK_REGISTER_CYCLES);
    let mut fee: u64 = 10;
    assert_eq!(consume_cycles(CyclesAction::BankRegister, 1, &mut fee, &21010), Ok(()));
    assert_eq!(fee, 21010);
    assert_eq!(consume_cycles(CyclesAction::BankRegister, 1, &mut fee, &21010), Err(CyclesError::OutOfCycles));
    assert_eq!(fee, 21010);
    let mut big: u64 = 0;
    assert_eq!(consume_cycles(CyclesAction::BankRegister, u64::MAX, &mut big, &u64::MAX), Err(CyclesError::OutOfCycles));
    assert_eq!(big, 0);
}

#[test]
fn protocol_error_from_bank_error() {
    let e: ProtocolError = NativeBankContractError::InvalidAddress.into();
    assert!(matches!(e, ProtocolError::Executor(NativeBankContractError::InvalidAddress)));
    let f: ProtocolError = CyclesError::OutOfCycles.into();
    assert!(matches!(f, ProtocolError::Cycles(CyclesError::OutOfCycles)));
}
