use evm_rpc_compat::nonce::{next_nonce, provides_first, same_bytes};
use evm_rpc_compat::pool::PoolReadyEntry;
use evm_rpc_compat::primitives::{H160, U256};
use parity_scale_codec::Encode;

const ACCOUNT: H160 = H160 { bytes: [0xaa; 20] };
const OTHER: H160 = H160 { bytes: [0xbb; 20] };

fn tag(account: &H160, nonce: u64) -> Vec<u8> {
    (ethereum_types::H160(account.bytes), ethereum_types::U256::from(nonce)).encode()
}

fn entry(account: &H160, nonce: u64) -> PoolReadyEntry {
    PoolReadyEntry { provides: vec![tag(account, nonce)], payload: vec![nonce as u8] }
}

#[test]
fn sequential_entries_advance_the_nonce() {
    let ready = vec![entry(&ACCOUNT, 5), entry(&ACCOUNT, 6), entry(&OTHER, 0)];
    assert_eq!(next_nonce(&ACCOUNT, U256::from_u64(5), &ready), U256::from_u64(7));
}

#[test]
fn out_of_order_entries_do_not_skip_ahead() {
    let ready = vec![entry(&ACCOUNT, 6), entry(&ACCOUNT, 5)];
    assert_eq!(next_nonce(&ACCOUNT, U256::from_u64(5), &ready), U256::from_u64(6));
}

#[test]
fn a_gap_at_the_finalized_nonce_leaves_it_unchanged() {
    let ready = vec![entry(&ACCOUNT, 6), entry(&ACCOUNT, 7), entry(&OTHER, 5)];
    assert_eq!(next_nonce(&ACCOUNT, U256::from_u64(5), &ready), U256::from_u64(5));
}

#[test]
fn an_empty_pool_returns_the_finalized_nonce() {
    assert_eq!(next_nonce(&ACCOUNT, U256::from_u64(5), &Vec::new()), U256::from_u64(5));
}

#[test]
fn unrelated_entries_are_passed_over_without_stopping() {
    let ready = vec![
        entry(&OTHER, 5),
        entry(&ACCOUNT, 5),
        entry(&OTHER, 6),
        PoolReadyEntry { provides: Vec::new(), payload: Vec::new() },
        entry(&ACCOUNT, 6),
        entry(&ACCOUNT, 7),
    ];
    assert_eq!(next_nonce(&ACCOUNT, U256::from_u64(5), &ready), U256::from_u64(8));
}

#[test]
fn only_the_first_tag_of_an_entry_counts() {
    let ready = vec![PoolReadyEntry {
        provides: vec![tag(&OTHER, 1), tag(&ACCOUNT, 5)],
        payload: Vec::new(),
    }];
    assert_eq!(next_nonce(&ACCOUNT, U256::from_u64(5), &ready), U256::from_u64(5));
}

#[test]
fn a_repeated_tag_is_counted_once() {
    let ready = vec![entry(&ACCOUNT, 5), entry(&ACCOUNT, 5)];
    assert_eq!(next_nonce(&ACCOUNT, U256::from_u64(5), &ready), U256::from_u64(6));
}

#[test]
fn the_tag_holds_the_nonce_beyond_its_lowest_limb() {
    let base = U256 { limbs: [u64::MAX, 0, 0, 0] };
    let outside = ethereum_types::U256(base.limbs);
    let ready = vec![PoolReadyEntry {
        provides: vec![(ethereum_types::H160(ACCOUNT.bytes), outside).encode()],
        payload: Vec::new(),
    }];
    assert_eq!(next_nonce(&ACCOUNT, base, &ready), U256 { limbs: [0, 1, 0, 0] });
}

#[test]
fn the_largest_nonce_stays_as_it_is() {
    let base = U256::max_value();
    let outside = ethereum_types::U256(base.limbs);
    let ready = vec![PoolReadyEntry {
        provides: vec![(ethereum_types::H160(ACCOUNT.bytes), outside).encode()],
        payload: Vec::new(),
    }];
    assert_eq!(next_nonce(&ACCOUNT, base, &ready), U256::max_value());
}

#[test]
fn the_walk_stays_within_its_bounds() {
    let ready = vec![entry(&ACCOUNT, 9), entry(&ACCOUNT, 3), entry(&ACCOUNT, 4), entry(&ACCOUNT, 4)];
    let next = next_nonce(&ACCOUNT, U256::from_u64(3), &ready);
    assert_eq!(next, U256::from_u64(5));
    assert!(next.limbs[0] >= 3 && next.limbs[0] <= 3 + ready.len() as u64);
}

#[test]
fn walking_in_two_parts_gives_the_same_nonce() {
    let first = vec![entry(&ACCOUNT, 1), entry(&OTHER, 1)];
    let second = vec![entry(&ACCOUNT, 2), entry(&ACCOUNT, 3)];
    let mut whole = first.clone();
    whole.extend(second.clone());
    let midway = next_nonce(&ACCOUNT, U256::from_u64(1), &first);
    assert_eq!(midway, U256::from_u64(2));
    assert_eq!(next_nonce(&ACCOUNT, midway, &second), next_nonce(&ACCOUNT, U256::from_u64(1), &whole));
    assert_eq!(next_nonce(&ACCOUNT, U256::from_u64(1), &whole), U256::from_u64(4));
}

#[test]
fn byte_strings_compare_by_content() {
    assert!(same_bytes(&[], &[]));
    assert!(same_bytes(&[1, 2, 3], &[1, 2, 3]));
    assert!(!same_bytes(&[1, 2, 3], &[1, 2, 4]));
    assert!(!same_bytes(&[1, 2, 3], &[1, 2]));
}

#[test]
fn an_entry_is_matched_by_its_first_tag() {
    let both = PoolReadyEntry { provides: vec![vec![1, 2], vec![3]], payload: Vec::new() };
    assert!(provides_first(&both, &[1, 2]));
    assert!(!provides_first(&both, &[3]));
    assert!(!provides_first(&PoolReadyEntry { provides: Vec::new(), payload: Vec::new() }, &[]));
}

#[test]
fn the_tag_is_the_account_followed_by_the_little_endian_nonce() {
    let mut expected = vec![0xaa; 20];
    expected.extend_from_slice(&[0x05, 0x01]);
    expected.extend_from_slice(&[0u8; 30]);
    assert_eq!(expected.len(), 52);
    assert_eq!(tag(&ACCOUNT, 0x0105), expected);
    let ready = vec![PoolReadyEntry { provides: vec![expected], payload: Vec::new() }];
    assert_eq!(next_nonce(&ACCOUNT, U256::from_u64(0x0105), &ready), U256::from_u64(0x0106));
    let mut swapped = vec![0xaa; 20];
    swapped.extend_from_slice(&[0u8; 30]);
    swapped.extend_from_slice(&[0x01, 0x05]);
    let ready = vec![PoolReadyEntry { provides: vec![swapped], payload: Vec::new() }];
    assert_eq!(next_nonce(&ACCOUNT, U256::from_u64(0x0105), &ready), U256::from_u64(0x0105));
}

#[test]
fn a_run_of_sequential_entries_is_counted_in_full() {
    let ready: Vec<PoolReadyEntry> = (10..20).map(|nonce| entry(&ACCOUNT, nonce)).collect();
    assert_eq!(next_nonce(&ACCOUNT, U256::from_u64(10), &ready), U256::from_u64(20));
    assert_eq!(next_nonce(&ACCOUNT, U256::from_u64(15), &ready), U256::from_u64(20));
    assert_eq!(next_nonce(&ACCOUNT, U256::from_u64(9), &ready), U256::from_u64(9));
    assert_eq!(next_nonce(&OTHER, U256::from_u64(10), &ready), U256::from_u64(10));
}
