//! The balances that a chain starts with, as a test of the runtime sets them
//! up: entries for accounts and for addresses, split into the balances of
//! the native currency and the balances of every other token.

use vstd::prelude::*;
use vstd::std_specs::cmp::PartialEqSpec;
use crate::primitives::H160;

verus! {

/// The balances of a genesis state, split by where they are kept.
#[derive(Debug, PartialEq, Eq)]
pub struct GenesisBalances<A, C> {
    /// The balances of the native currency, account by account.
    pub native: Vec<(A, u128)>,
    /// The balances of every other currency.
    pub tokens: Vec<(A, C, u128)>,
}

/// The entries in the native currency, as account and amount, in their order.
pub open spec fn native_of<A, C: PartialEq>(entries: Seq<(A, C, u128)>, native: C) -> Seq<(A, u128)>
    decreases entries.len(),
{
    if entries.len() == 0 {
        Seq::empty()
    } else {
        let before = native_of(entries.drop_last(), native);
        let entry = entries.last();
        if entry.1.eq_spec(&native) {
            before.push((entry.0, entry.2))
        } else {
            before
        }
    }
}

/// The entries in any other currency, in their order.
pub open spec fn tokens_of<A, C: PartialEq>(entries: Seq<(A, C, u128)>, native: C) -> Seq<
    (A, C, u128),
>
    decreases entries.len(),
{
    if entries.len() == 0 {
        Seq::empty()
    } else {
        let before = tokens_of(entries.drop_last(), native);
        let entry = entries.last();
        if entry.1.eq_spec(&native) {
            before
        } else {
            before.push(entry)
        }
    }
}

/// The entries of addresses with an account in place of each address.
pub open spec fn with_accounts<A, C>(entries: Seq<(H160, C, u128)>, accounts: Seq<A>) -> Seq<
    (A, C, u128),
> {
    Seq::new(entries.len(), |i: int| (accounts[i], entries[i].1, entries[i].2))
}

/// Splits entries into the balances of the native currency and those of
/// every other currency, keeping the order of the entries in both.
pub fn partition<A, C: PartialEq>(entries: Vec<(A, C, u128)>, native: &C) -> (r: GenesisBalances<
    A,
    C,
>)
    ensures
        C::obeys_eq_spec() ==> r.native@ == native_of(entries@, *native),
        C::obeys_eq_spec() ==> r.tokens@ == tokens_of(entries@, *native),
{
    let mut native_balances: Vec<(A, u128)> = Vec::new();
    let mut token_balances: Vec<(A, C, u128)> = Vec::new();
    let ghost all = entries@;
    for entry in iter: entries.into_iter()
        invariant
            iter.seq() == all,
            C::obeys_eq_spec() ==> native_balances@ == native_of(
                all.take(iter.index() as int),
                *native,
            ),
            C::obeys_eq_spec() ==> token_balances@ == tokens_of(
                all.take(iter.index() as int),
                *native,
            ),
    {
        proof {
            let done = iter.index() as int;
            assert(all.take(done + 1).drop_last() =~= all.take(done));
            assert(all.take(done + 1).last() == all[done]);
        }
        let (account, currency, amount) = entry;
        if currency.eq(native) {
            native_balances.push((account, amount));
        } else {
            token_balances.push((account, currency, amount));
        }
    }
    assert(all.take(all.len() as int) =~= all);
    GenesisBalances { native: native_balances, tokens: token_balances }
}

/// Collects the balances of a genesis state.
#[derive(Debug, PartialEq, Eq)]
pub struct ExtBuilder<A, C> {
    balances: Vec<(A, C, u128)>,
    evm_balances: Vec<(H160, C, u128)>,
}

impl<A, C> Default for ExtBuilder<A, C> {
    fn default() -> (r: Self)
        ensures
            r.spec_balances().len() == 0,
            r.spec_evm_balances().len() == 0,
    {
        ExtBuilder { balances: Vec::new(), evm_balances: Vec::new() }
    }
}

impl<A, C> ExtBuilder<A, C> {
    /// The entries that name accounts.
    pub closed spec fn spec_balances(&self) -> Seq<(A, C, u128)> {
        self.balances@
    }

    /// The entries that name addresses.
    pub closed spec fn spec_evm_balances(&self) -> Seq<(H160, C, u128)> {
        self.evm_balances@
    }

    /// Sets the entries that name accounts.
    pub fn balances(self, balances: Vec<(A, C, u128)>) -> (r: Self)
        ensures
            r.spec_balances() == balances@,
            r.spec_evm_balances() == self.spec_evm_balances(),
    {
        ExtBuilder { balances, evm_balances: self.evm_balances }
    }

    /// Sets the entries that name addresses.
    pub fn evm_balances(self, balances: Vec<(H160, C, u128)>) -> (r: Self)
        ensures
            r.spec_balances() == self.spec_balances(),
            r.spec_evm_balances() == balances@,
    {
        ExtBuilder { balances: self.balances, evm_balances: balances }
    }
}

impl<A, C: PartialEq> ExtBuilder<A, C> {
    /// Builds the balances of the genesis state.
    ///
    /// Each address is given its account by `into_account_id`. The entries of
    /// addresses come first and the entries of accounts after them; those in
    /// the `native` currency become native balances, all others token
    /// balances.
    pub fn build<M: Fn(H160) -> A>(self, native: &C, into_account_id: M) -> (r: GenesisBalances<
        A,
        C,
    >)
        requires
            forall|address: H160| into_account_id.requires((address,)),
        ensures
            C::obeys_eq_spec() ==> exists|accounts: Seq<A>|
                {
                    &&& accounts.len() == self.spec_evm_balances().len()
                    &&& forall|i: int|
                        0 <= i < accounts.len() ==> into_account_id.ensures(
                            (self.spec_evm_balances()[i].0,),
                            #[trigger] accounts[i],
                        )
                    &&& r.native@ == native_of(
                        with_accounts(self.spec_evm_balances(), accounts) + self.spec_balances(),
                        *native,
                    )
                    &&& r.tokens@ == tokens_of(
                        with_accounts(self.spec_evm_balances(), accounts) + self.spec_balances(),
                        *native,
                    )
                },
    {
        let ghost evm = self.evm_balances@;
        let ghost named = self.balances@;
        let ghost mut accounts: Seq<A> = Seq::empty();
        let mut entries: Vec<(A, C, u128)> = Vec::new();
        for entry in iter: self.evm_balances.into_iter()
            invariant
                iter.seq() == evm,
                forall|address: H160| into_account_id.requires((address,)),
                accounts.len() == iter.index(),
                forall|i: int|
                    0 <= i < accounts.len() ==> into_account_id.ensures(
                        (evm[i].0,),
                        #[trigger] accounts[i],
                    ),
                entries@ == with_accounts(evm.take(iter.index() as int), accounts),
        {
            let (address, currency, amount) = entry;
            let account = into_account_id(address);
            proof {
                let done = iter.index() as int;
                let longer = accounts.push(account);
                assert(entries@.push((account, currency, amount)) =~= with_accounts(
                    evm.take(done + 1),
                    longer,
                ));
                accounts = longer;
            }
            entries.push((account, currency, amount));
        }
        assert(evm.take(evm.len() as int) =~= evm);
        for entry in iter: self.balances.into_iter()
            invariant
                iter.seq() == named,
                entries@ == with_accounts(evm, accounts) + named.take(iter.index() as int),
        {
            proof {
                let done = iter.index() as int;
                assert(named.take(done + 1) =~= named.take(done).push(named[done]));
            }
            entries.push(entry);
        }
        assert(named.take(named.len() as int) =~= named);
        partition(entries, native)
    }
}

} // verus!
