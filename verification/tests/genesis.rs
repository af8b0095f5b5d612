use evm_rpc_compat::genesis::{partition, ExtBuilder, GenesisBalances};
use evm_rpc_compat::primitives::H160;

const NATIVE: u8 = 0;
const FEE: u8 = 7;

fn account_of(address: H160) -> u64 {
    1000 + address.bytes[19] as u64
}

fn address(last: u8) -> H160 {
    let mut bytes = [0u8; 20];
    bytes[19] = last;
    H160 { bytes }
}

#[test]
fn native_entries_become_native_balances() {
    let built = ExtBuilder::default()
        .balances(vec![(1u64, NATIVE, 1_000_000_000_000_000u128)])
        .build(&NATIVE, account_of);
    assert_eq!(
        built,
        GenesisBalances { native: vec![(1, 1_000_000_000_000_000)], tokens: Vec::new() }
    );
}

#[test]
fn other_currencies_become_token_balances() {
    let built = ExtBuilder::default()
        .balances(vec![(1u64, NATIVE, 1_000_000_000_000u128), (1, FEE, 1_000_000_000_000)])
        .build(&NATIVE, account_of);
    assert_eq!(
        built,
        GenesisBalances {
            native: vec![(1, 1_000_000_000_000)],
            tokens: vec![(1, FEE, 1_000_000_000_000)],
        }
    );
}

#[test]
fn addresses_are_mapped_and_come_first() {
    let built = ExtBuilder::default()
        .balances(vec![(1u64, NATIVE, 10u128), (2, FEE, 20), (3, NATIVE, 30)])
        .evm_balances(vec![(address(5), FEE, 50), (address(6), NATIVE, 60), (address(7), 9u8, 70)])
        .build(&NATIVE, account_of);
    assert_eq!(
        built,
        GenesisBalances {
            native: vec![(1006, 60), (1, 10), (3, 30)],
            tokens: vec![(1005, FEE, 50), (1007, 9, 70), (2, FEE, 20)],
        }
    );
}

#[test]
fn a_later_setting_replaces_an_earlier_one() {
    let built = ExtBuilder::default()
        .balances(vec![(1u64, NATIVE, 10u128)])
        .evm_balances(vec![(address(1), NATIVE, 1)])
        .balances(vec![(2, NATIVE, 20)])
        .evm_balances(Vec::new())
        .build(&NATIVE, account_of);
    assert_eq!(built, GenesisBalances { native: vec![(2, 20)], tokens: Vec::new() });
}

#[test]
fn an_empty_builder_builds_nothing() {
    let built = ExtBuilder::<u64, u8>::default().build(&NATIVE, account_of);
    assert_eq!(built, GenesisBalances { native: Vec::new(), tokens: Vec::new() });
}

#[test]
fn every_entry_lands_on_exactly_one_side() {
    let entries = vec![(1u64, 3u8, 1u128), (2, 4, 2), (3, 3, 3), (4, 5, 4), (5, 3, 5)];
    let split = partition(entries.clone(), &3);
    assert_eq!(split.native, vec![(1, 1), (3, 3), (5, 5)]);
    assert_eq!(split.tokens, vec![(2, 4, 2), (4, 5, 4)]);
    assert_eq!(split.native.len() + split.tokens.len(), entries.len());
}
