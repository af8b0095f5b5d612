//! Fixed-width values shared by every component: addresses, hashes and
//! 256-bit unsigned integers.

use vstd::prelude::*;

verus! {

/// A 20-byte account address.
#[derive(Clone, Copy, Debug, PartialEq, Eq)]
pub struct H160 {
    pub bytes: [u8; 20],
}

/// A 32-byte hash.
#[derive(Clone, Copy, Debug, PartialEq, Eq)]
pub struct H256 {
    pub bytes: [u8; 32],
}

impl View for H160 {
    type V = Seq<u8>;

    open spec fn view(&self) -> Seq<u8> {
        self.bytes@
    }
}

impl View for H256 {
    type V = Seq<u8>;

    open spec fn view(&self) -> Seq<u8> {
        self.bytes@
    }
}

/// 2^64, the weight of one limb.
pub open spec fn limb_base() -> nat {
    0x1_0000_0000_0000_0000
}

/// 2^256 - 1, the largest value a `U256` holds.
pub open spec fn u256_max() -> nat {
    (limb_base() * limb_base() * limb_base() * limb_base() - 1) as nat
}

/// The number that four little-endian 64-bit limbs stand for.
pub open spec fn limbs_value(l0: u64, l1: u64, l2: u64, l3: u64) -> nat {
    l0 as nat + limb_base() * (l1 as nat + limb_base() * (l2 as nat + limb_base() * (l3 as nat)))
}

/// A 256-bit unsigned integer, held as four 64-bit limbs, least significant
/// first.
#[derive(Clone, Copy, Debug, PartialEq, Eq)]
pub struct U256 {
    pub limbs: [u64; 4],
}

impl View for U256 {
    type V = nat;

    open spec fn view(&self) -> nat {
        limbs_value(self.limbs[0], self.limbs[1], self.limbs[2], self.limbs[3])
    }
}

impl U256 {
    /// Zero.
    pub fn zero() -> (r: U256)
        ensures
            r@ == 0,
    {
        U256 { limbs: [0, 0, 0, 0] }
    }

    /// The largest value, 2^256 - 1.
    pub fn max_value() -> (r: U256)
        ensures
            r@ == u256_max(),
    {
        let r = U256 { limbs: [u64::MAX, u64::MAX, u64::MAX, u64::MAX] };
        assert(r@ == u256_max()) by (nonlinear_arith)
            requires
                r@ == limbs_value(u64::MAX, u64::MAX, u64::MAX, u64::MAX),
        ;
        r
    }

    /// The value of a 64-bit integer.
    pub fn from_u64(n: u64) -> (r: U256)
        ensures
            r@ == n,
    {
        U256 { limbs: [n, 0, 0, 0] }
    }

    /// The value of a 128-bit integer.
    pub fn from_u128(n: u128) -> (r: U256)
        ensures
            r@ == n,
    {
        let low: u64 = (n % 0x1_0000_0000_0000_0000) as u64;
        let high: u64 = (n / 0x1_0000_0000_0000_0000) as u64;
        U256 { limbs: [low, high, 0, 0] }
    }

    /// The sum of two values, or the largest value where the sum exceeds it.
    pub fn saturating_add(&self, other: &U256) -> (r: U256)
        ensures
            r@ == saturating_sum(self@, other@),
    {
        let s0: u128 = self.limbs[0] as u128 + other.limbs[0] as u128;
        let l0: u64 = (s0 % 0x1_0000_0000_0000_0000) as u64;
        let s1: u128 = self.limbs[1] as u128 + other.limbs[1] as u128 + s0
            / 0x1_0000_0000_0000_0000;
        let l1: u64 = (s1 % 0x1_0000_0000_0000_0000) as u64;
        let s2: u128 = self.limbs[2] as u128 + other.limbs[2] as u128 + s1
            / 0x1_0000_0000_0000_0000;
        let l2: u64 = (s2 % 0x1_0000_0000_0000_0000) as u64;
        let s3: u128 = self.limbs[3] as u128 + other.limbs[3] as u128 + s2
            / 0x1_0000_0000_0000_0000;
        let l3: u64 = (s3 % 0x1_0000_0000_0000_0000) as u64;
        let carry: u128 = s3 / 0x1_0000_0000_0000_0000;
        proof {
            let b = limb_base();
            assert(limbs_value(l0, l1, l2, l3) + carry * (b * b * b * b) == self@ + other@)
                by (nonlinear_arith)
                requires
                    b == 0x1_0000_0000_0000_0000,
                    s0 == l0 + b * (s0 / 0x1_0000_0000_0000_0000),
                    s1 == l1 + b * (s1 / 0x1_0000_0000_0000_0000),
                    s2 == l2 + b * (s2 / 0x1_0000_0000_0000_0000),
                    s3 == l3 + b * carry,
                    s0 == self.limbs[0] + other.limbs[0],
                    s1 == self.limbs[1] + other.limbs[1] + s0 / 0x1_0000_0000_0000_0000,
                    s2 == self.limbs[2] + other.limbs[2] + s1 / 0x1_0000_0000_0000_0000,
                    s3 == self.limbs[3] + other.limbs[3] + s2 / 0x1_0000_0000_0000_0000,
                    limbs_value(l0, l1, l2, l3) == l0 + b * (l1 + b * (l2 + b * l3)),
                    self@ == self.limbs[0] + b * (self.limbs[1] + b * (self.limbs[2] + b
                        * self.limbs[3])),
                    other@ == other.limbs[0] + b * (other.limbs[1] + b * (other.limbs[2] + b
                        * other.limbs[3])),
            ;
            lemma_limbs_value_bound(l0, l1, l2, l3);
            assert(carry == 0 || carry >= 1);
            assert(carry >= 1 ==> carry * (b * b * b * b) >= b * b * b * b) by (nonlinear_arith)
                requires
                    b == 0x1_0000_0000_0000_0000,
            ;
        }
        if carry != 0 {
            U256::max_value()
        } else {
            U256 { limbs: [l0, l1, l2, l3] }
        }
    }
}

/// The sum of two numbers, capped at the largest value of a `U256`.
pub open spec fn saturating_sum(a: nat, b: nat) -> nat {
    if a + b <= u256_max() {
        a + b
    } else {
        u256_max()
    }
}

/// Four limbs stand for a number of at most 2^256 - 1.
pub proof fn lemma_limbs_value_bound(l0: u64, l1: u64, l2: u64, l3: u64)
    ensures
        limbs_value(l0, l1, l2, l3) <= u256_max(),
{
    let b = limb_base();
    assert(l0 + b * (l1 + b * (l2 + b * l3)) <= b * b * b * b - 1) by (nonlinear_arith)
        requires
            b == 0x1_0000_0000_0000_0000,
            l0 <= b - 1,
            l1 <= b - 1,
            l2 <= b - 1,
            l3 <= b - 1,
    ;
}

} // verus!
