//! The next usable nonce of an account: its finalized nonce, advanced once
//! for each ready pool entry that consumes the nonce expected at that point
//! of the walk.

use vstd::prelude::*;
use vstd::arithmetic::div_mod::{lemma_mod_breakdown, lemma_small_mod};
use crate::pool::{first_tags, PoolReadyEntry};
use crate::primitives::{limb_base, saturating_sum, u256_max, H160, U256};

verus! {

/// 256 to the power of `k`.
pub open spec fn pow256(k: nat) -> nat
    decreases k,
{
    if k == 0 {
        1
    } else {
        256 * pow256((k - 1) as nat)
    }
}

/// The digit of `n` at position `i` in base 256, counted from the least
/// significant.
pub open spec fn digit256(n: nat, i: nat) -> nat {
    (n / pow256(i)) % 256
}

/// The 32 bytes of a number below 2^256, least significant first.
pub open spec fn le_bytes32(n: nat) -> Seq<u8> {
    Seq::new(32, |i: int| digit256(n, i as nat) as u8)
}

/// The tag that a pool entry provides when it consumes `nonce` of `account`:
/// the account's twenty bytes followed by the nonce in 32 little-endian
/// bytes.
pub open spec fn provides_tag(account: Seq<u8>, nonce: nat) -> Seq<u8> {
    account + le_bytes32(nonce)
}

/// Calls `parity_scale_codec::Encode::encode` on the pair of an
/// `ethereum_types::H160` and an `ethereum_types::U256`. The codec writes a
/// tuple as its fields in order, a fixed hash as its bytes and a 256-bit
/// integer as 32 bytes, least significant first.
#[verifier::external_body]
fn encode_tag(account: &H160, nonce: &U256) -> (r: Vec<u8>)
    ensures
        r@ == provides_tag(account@, nonce@),
{
    parity_scale_codec::Encode::encode(
        &(ethereum_types::H160(account.bytes), ethereum_types::U256(nonce.limbs)),
    )
}

/// The nonce expected after one entry: one more than `nonce` where the
/// entry's first tag is the tag of `nonce`, and `nonce` itself otherwise. The
/// largest nonce stays as it is.
pub open spec fn advanced(account: Seq<u8>, nonce: nat, tag: Option<Seq<u8>>) -> nat {
    if tag == Some(provides_tag(account, nonce)) {
        saturating_sum(nonce, 1)
    } else {
        nonce
    }
}

/// The nonce expected after walking `tags` from their first entry to their
/// last, starting from `nonce`.
pub open spec fn reconciled(account: Seq<u8>, nonce: nat, tags: Seq<Option<Seq<u8>>>) -> nat
    decreases tags.len(),
{
    if tags.len() == 0 {
        nonce
    } else {
        reconciled(account, advanced(account, nonce, tags[0]), tags.drop_first())
    }
}

/// Whether two byte strings hold the same bytes.
pub fn same_bytes(a: &[u8], b: &[u8]) -> (r: bool)
    ensures
        r == (a@ == b@),
{
    if a.len() != b.len() {
        return false;
    }
    let mut i: usize = 0;
    while i < a.len()
        invariant
            a@.len() == b@.len(),
            i <= a@.len(),
            forall|k: int| 0 <= k < i ==> a@[k] == b@[k],
        decreases a@.len() - i,
    {
        if a[i] != b[i] {
            return false;
        }
        i += 1;
    }
    assert(a@ =~= b@);
    true
}

/// Whether the first tag of `entry` is `tag`.
pub fn provides_first(entry: &PoolReadyEntry, tag: &[u8]) -> (r: bool)
    ensures
        r == (entry.first_tag() == Some(tag@)),
{
    if entry.provides.len() == 0 {
        false
    } else {
        same_bytes(entry.provides[0].as_slice(), tag)
    }
}

/// Computes the next usable nonce of `account`.
///
/// The walk starts from `base`, the account's finalized nonce, and visits the
/// ready entries in the order the pool exposes them. An entry whose first tag
/// is the tag of the nonce expected at that point advances the expected nonce
/// by one; any other entry is passed over, and the walk goes on to the end.
pub fn next_nonce(account: &H160, base: U256, ready: &Vec<PoolReadyEntry>) -> (r: U256)
    ensures
        r@ == reconciled(account@, base@, first_tags(ready@)),
{
    let ghost tags = first_tags(ready@);
    let one = U256::from_u64(1);
    let mut current = base;
    let mut tag = encode_tag(account, &current);
    let mut i: usize = 0;
    assert(tags.skip(0) =~= tags);
    while i < ready.len()
        invariant
            i <= ready@.len(),
            tags == first_tags(ready@),
            one@ == 1,
            tag@ == provides_tag(account@, current@),
            reconciled(account@, base@, tags) == reconciled(account@, current@, tags.skip(i as int)),
        decreases ready@.len() - i,
    {
        proof {
            assert(tags.skip(i as int)[0] == ready@[i as int].first_tag());
            assert(tags.skip(i as int).drop_first() =~= tags.skip(i + 1));
        }
        if provides_first(&ready[i], tag.as_slice()) {
            current = current.saturating_add(&one);
            tag = encode_tag(account, &current);
        }
        i += 1;
    }
    current
}

/// Every power of 256 is positive.
proof fn lemma_pow256_positive(k: nat)
    ensures
        pow256(k) > 0,
    decreases k,
{
    if k > 0 {
        lemma_pow256_positive((k - 1) as nat);
    }
}

/// Eight more factors of 256 are one factor of 2^64.
proof fn lemma_pow256_limb(k: nat)
    ensures
        pow256(k + 8) == pow256(k) * limb_base(),
{
    reveal_with_fuel(pow256, 9);
}

/// 256^32 is one more than the largest 256-bit number.
proof fn lemma_pow256_width()
    ensures
        pow256(32) == u256_max() + 1,
{
    lemma_pow256_limb(0);
    lemma_pow256_limb(8);
    lemma_pow256_limb(16);
    lemma_pow256_limb(24);
    let b = limb_base();
    assert(pow256(0) == 1);
    assert(pow256(32) == b * b * b * b) by (nonlinear_arith)
        requires
            pow256(8) == 1 * b,
            pow256(16) == pow256(8) * b,
            pow256(24) == pow256(16) * b,
            pow256(32) == pow256(24) * b,
    ;
}

/// Numbers whose lowest `k` digits in base 256 agree leave the same
/// remainder modulo 256^k.
proof fn lemma_digits_fix_remainder(n: nat, m: nat, k: nat)
    requires
        forall|i: nat| i < k ==> #[trigger] digit256(n, i) == digit256(m, i),
    ensures
        n % pow256(k) == m % pow256(k),
    decreases k,
{
    if k > 0 {
        let lower = (k - 1) as nat;
        let weight = pow256(lower);
        lemma_pow256_positive(lower);
        lemma_digits_fix_remainder(n, m, lower);
        assert(pow256(k) == weight * 256) by (nonlinear_arith)
            requires
                pow256(k) == 256 * weight,
        ;
        lemma_mod_breakdown(n as int, weight as int, 256);
        lemma_mod_breakdown(m as int, weight as int, 256);
        assert(digit256(n, lower) == digit256(m, lower));
    }
}

/// A tag names one account and one nonce: tags of accounts of the same
/// length are equal only where the accounts are, and the nonces too.
pub proof fn law_tag_names_one_nonce(account: Seq<u8>, nonce: nat, other: Seq<u8>, other_nonce: nat)
    requires
        account.len() == other.len(),
        nonce <= u256_max(),
        other_nonce <= u256_max(),
        provides_tag(account, nonce) == provides_tag(other, other_nonce),
    ensures
        account == other,
        nonce == other_nonce,
{
    let tag = provides_tag(account, nonce);
    let other_tag = provides_tag(other, other_nonce);
    assert(account =~= tag.subrange(0, account.len() as int));
    assert(other =~= other_tag.subrange(0, other.len() as int));
    assert forall|i: nat| i < 32 implies #[trigger] digit256(nonce, i) == digit256(
        other_nonce,
        i,
    ) by {
        lemma_pow256_positive(i);
        assert(tag[(account.len() + i) as int] == le_bytes32(nonce)[i as int]);
        assert(other_tag[(other.len() + i) as int] == le_bytes32(other_nonce)[i as int]);
    }
    lemma_digits_fix_remainder(nonce, other_nonce, 32);
    lemma_pow256_width();
    lemma_small_mod(nonce, pow256(32));
    lemma_small_mod(other_nonce, pow256(32));
}

/// Walking two sequences one after the other is walking the second from
/// where the first ended.
pub proof fn law_walk_composes(
    account: Seq<u8>,
    nonce: nat,
    first: Seq<Option<Seq<u8>>>,
    second: Seq<Option<Seq<u8>>>,
)
    ensures
        reconciled(account, nonce, first + second) == reconciled(
            account,
            reconciled(account, nonce, first),
            second,
        ),
    decreases first.len(),
{
    if first.len() == 0 {
        assert(first + second =~= second);
    } else {
        assert((first + second)[0] == first[0]);
        assert((first + second).drop_first() =~= first.drop_first() + second);
        law_walk_composes(account, advanced(account, nonce, first[0]), first.drop_first(), second);
    }
}

/// The walk never goes below the nonce it starts from, and advances at most
/// once for each entry.
pub proof fn law_walk_is_bounded(account: Seq<u8>, nonce: nat, tags: Seq<Option<Seq<u8>>>)
    requires
        nonce <= u256_max(),
    ensures
        nonce <= reconciled(account, nonce, tags) <= nonce + tags.len(),
        reconciled(account, nonce, tags) <= u256_max(),
    decreases tags.len(),
{
    if tags.len() > 0 {
        law_walk_is_bounded(account, advanced(account, nonce, tags[0]), tags.drop_first());
    }
}

/// The walk advances on an exact match only: where no entry carries the tag
/// of the starting nonce, the result is the starting nonce, whatever else the
/// entries carry.
pub proof fn law_walk_needs_exact_match(account: Seq<u8>, nonce: nat, tags: Seq<Option<Seq<u8>>>)
    requires
        forall|i: int| 0 <= i < tags.len() ==> tags[i] != Some(provides_tag(account, nonce)),
    ensures
        reconciled(account, nonce, tags) == nonce,
    decreases tags.len(),
{
    if tags.len() > 0 {
        assert(tags[0] != Some(provides_tag(account, nonce)));
        assert forall|i: int| 0 <= i < tags.drop_first().len() implies tags.drop_first()[i] != Some(
            provides_tag(account, nonce),
        ) by {
            assert(tags.drop_first()[i] == tags[i + 1]);
        }
        law_walk_needs_exact_match(account, nonce, tags.drop_first());
    }
}

/// Entries that stand before the first entry with the tag of the starting
/// nonce are not counted, whatever nonces they consume: the walk gives what it
/// gives from that entry on.
pub proof fn law_entries_before_the_match_are_passed_over(
    account: Seq<u8>,
    nonce: nat,
    tags: Seq<Option<Seq<u8>>>,
    at: int,
)
    requires
        0 <= at <= tags.len(),
        forall|i: int| 0 <= i < at ==> tags[i] != Some(provides_tag(account, nonce)),
    ensures
        reconciled(account, nonce, tags) == reconciled(
            account,
            nonce,
            tags.subrange(at, tags.len() as int),
        ),
{
    let head = tags.subrange(0, at);
    let tail = tags.subrange(at, tags.len() as int);
    assert(tags =~= head + tail);
    law_walk_composes(account, nonce, head, tail);
    law_walk_needs_exact_match(account, nonce, head);
}

/// A walk that starts higher never ends lower.
pub proof fn law_walk_is_monotone(
    account: Seq<u8>,
    low: nat,
    high: nat,
    tags: Seq<Option<Seq<u8>>>,
)
    requires
        low <= high <= u256_max(),
    ensures
        reconciled(account, low, tags) <= reconciled(account, high, tags),
    decreases tags.len(),
{
    if tags.len() > 0 {
        law_walk_is_monotone(
            account,
            advanced(account, low, tags[0]),
            advanced(account, high, tags[0]),
            tags.drop_first(),
        );
    }
}

/// A run of entries that consume the starting nonce and the nonces after it,
/// one after the other, is counted in full: the walk ends at the starting
/// nonce plus the length of the run.
pub proof fn law_sequential_run_is_counted(account: Seq<u8>, nonce: nat, tags: Seq<Option<Seq<u8>>>)
    requires
        nonce + tags.len() <= u256_max(),
        forall|i: int| 0 <= i < tags.len() ==> tags[i] == Some(provides_tag(account, (nonce + i) as nat)),
    ensures
        reconciled(account, nonce, tags) == nonce + tags.len(),
    decreases tags.len(),
{
    if tags.len() > 0 {
        assert(tags[0] == Some(provides_tag(account, (nonce + 0) as nat)));
        assert forall|i: int| 0 <= i < tags.drop_first().len() implies tags.drop_first()[i] == Some(
            provides_tag(account, (nonce + 1 + i) as nat),
        ) by {
            assert(tags.drop_first()[i] == tags[i + 1]);
        }
        law_sequential_run_is_counted(account, nonce + 1, tags.drop_first());
    }
}

/// One entry that carries the tag of `nonce` takes a walk that has reached
/// `nonce` or more past `nonce`.
proof fn lemma_walk_passes(account: Seq<u8>, nonce: nat, start: nat, tags: Seq<Option<Seq<u8>>>, at: int)
    requires
        nonce <= start <= u256_max(),
        nonce < u256_max(),
        0 <= at < tags.len(),
        tags[at] == Some(provides_tag(account, nonce)),
    ensures
        reconciled(account, start, tags) >= nonce + 1,
    decreases tags.len(),
{
    let next = advanced(account, start, tags[0]);
    if at == 0 {
        assert(next >= nonce + 1);
        law_walk_is_bounded(account, next, tags.drop_first());
    } else {
        assert(tags.drop_first()[at - 1] == tags[at]);
        lemma_walk_passes(account, nonce, next, tags.drop_first(), at - 1);
    }
}

/// Two ready entries that consume the finalized nonce and the one after it,
/// in that order, are counted: with them in the pool the next nonce is at
/// least the finalized nonce plus two, wherever in the ready sequence they
/// stand and whatever stands between them.
pub proof fn law_sequential_pair_is_counted(
    account: Seq<u8>,
    nonce: nat,
    tags: Seq<Option<Seq<u8>>>,
    first: int,
    second: int,
)
    requires
        nonce + 2 <= u256_max(),
        0 <= first < second < tags.len(),
        tags[first] == Some(provides_tag(account, nonce)),
        tags[second] == Some(provides_tag(account, nonce + 1)),
    ensures
        reconciled(account, nonce, tags) >= nonce + 2,
{
    let head = tags.subrange(0, second);
    let tail = tags.subrange(second, tags.len() as int);
    assert(tags =~= head + tail);
    law_walk_composes(account, nonce, head, tail);
    let middle = reconciled(account, nonce, head);
    assert(head[first] == tags[first]);
    lemma_walk_passes(account, nonce, nonce, head, first);
    law_walk_is_bounded(account, nonce, head);
    assert(tail[0] == tags[second]);
    lemma_walk_passes(account, nonce + 1, middle, tail, 0);
}

} // verus!
