use evm_rpc_compat::primitives::U256;

fn outside(value: &U256) -> ethereum_types::U256 {
    ethereum_types::U256(value.limbs)
}

#[test]
fn small_values_sit_in_the_lowest_limb() {
    assert_eq!(U256::zero(), U256 { limbs: [0, 0, 0, 0] });
    assert_eq!(U256::from_u64(42), U256 { limbs: [42, 0, 0, 0] });
    assert_eq!(outside(&U256::from_u64(42)), ethereum_types::U256::from(42u64));
}

#[test]
fn a_128_bit_value_fills_two_limbs() {
    let value = U256::from_u128(0x0123_4567_89ab_cdef_0011_2233_4455_6677);
    assert_eq!(value, U256 { limbs: [0x0011_2233_4455_6677, 0x0123_4567_89ab_cdef, 0, 0] });
    assert_eq!(
        outside(&value),
        ethereum_types::U256::from(0x0123_4567_89ab_cdef_0011_2233_4455_6677u128)
    );
    assert_eq!(U256::from_u128(u128::MAX), U256 { limbs: [u64::MAX, u64::MAX, 0, 0] });
}

#[test]
fn the_largest_value_has_every_bit_set() {
    assert_eq!(outside(&U256::max_value()), ethereum_types::U256::MAX);
}

#[test]
fn addition_carries_across_limbs() {
    let a = U256 { limbs: [u64::MAX, u64::MAX, 7, 0] };
    let b = U256::from_u64(1);
    assert_eq!(a.saturating_add(&b), U256 { limbs: [0, 0, 8, 0] });
    let c = U256 { limbs: [1, 2, 3, 4] };
    let d = U256 { limbs: [u64::MAX, u64::MAX, u64::MAX, 5] };
    assert_eq!(outside(&c.saturating_add(&d)), outside(&c).saturating_add(outside(&d)));
    assert_eq!(c.saturating_add(&d), U256 { limbs: [0, 2, 3, 10] });
}

#[test]
fn addition_saturates_at_the_largest_value() {
    let one = U256::from_u64(1);
    assert_eq!(U256::max_value().saturating_add(&one), U256::max_value());
    let high = U256 { limbs: [0, 0, 0, u64::MAX] };
    assert_eq!(high.saturating_add(&high), U256::max_value());
    assert_eq!(U256::max_value().saturating_add(&U256::zero()), U256::max_value());
}
