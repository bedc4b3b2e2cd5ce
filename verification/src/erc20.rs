//! A fungible token: balances per account, allowances per owner and spender,
//! and a supply that is fixed when the token is made.
//!
//! The caller of each operation is the account that the host authenticated;
//! what the host is to announce comes back with the result.

use crate::types::{AccountId, Balance};
use ink_storage::collections::HashMap as StorageHashMap;
use vstd::prelude::*;

verus! {

/// An `ink_storage::collections::HashMap` from numbers to amounts. The token
/// makes its maps with `new` and never binds them to a storage key, so they
/// live in memory. Nothing is known of a value but what [`stored`] names.
#[verifier::external_body]
pub struct StorageMap {
    map: StorageHashMap<u128, Balance>,
}

/// What a storage map holds.
pub type Entries = Map<u128, Balance>;

/// The entries of a storage map: its keys and the amount under each.
pub uninterp spec fn stored(map: StorageMap) -> Entries;

/// Calls `ink_storage::collections::HashMap::new`, which makes a map without
/// entries.
#[verifier::external_body]
fn storage_new() -> (map: StorageMap)
    ensures
        stored(map) == Entries::empty(),
{
    StorageMap { map: StorageHashMap::new() }
}

/// Calls `ink_storage::collections::HashMap::insert`, which puts the value
/// under the key, in place of the value that was there if there was one. The
/// map counts its keys in a `u32`; more keys than that do not fit in memory.
#[verifier::external_body]
fn storage_insert(map: &mut StorageMap, key: u128, value: Balance)
    ensures
        stored(*final(map)) == stored(*old(map)).insert(key, value),
{
    map.map.insert(key, value);
}

/// Calls `ink_storage::collections::HashMap::get`, which finds the value under
/// the key if there is one, and copies it out.
#[verifier::external_body]
fn storage_get(map: &StorageMap, key: u128) -> (found: Option<Balance>)
    ensures
        found == if stored(*map).dom().contains(key) {
            Some(stored(*map)[key])
        } else {
            None
        },
{
    map.map.get(&key).copied()
}

/// Tokens moved. `from` is `None` when they were newly issued.
#[derive(Clone, Copy, Debug, PartialEq, Eq)]
pub struct Transfer {
    pub from: Option<AccountId>,
    pub to: Option<AccountId>,
    pub value: Balance,
}

/// `owner` allowed `spender` to move up to `value` of its tokens.
#[derive(Clone, Copy, Debug, PartialEq, Eq)]
pub struct Approval {
    pub owner: AccountId,
    pub spender: AccountId,
    pub value: Balance,
}

/// Why a movement of tokens was turned down.
#[derive(Clone, Copy, Debug, PartialEq, Eq, Structural)]
pub enum Error {
    /// The sender holds less than the amount.
    InsufficientBalance,
    /// The caller may move less than the amount on the owner's behalf.
    InsufficientAllowance,
}

/// What `who` holds according to `balances`: nothing where it has no entry.
pub open spec fn balance(balances: Map<AccountId, Balance>, who: AccountId) -> Balance {
    if balances.dom().contains(who) {
        balances[who]
    } else {
        0
    }
}

/// The sum of all balances.
pub open spec fn total(balances: Map<AccountId, Balance>) -> nat
    decreases balances.dom().len(),
    when balances.dom().finite()
    via total_decreases
{
    if balances.dom().len() == 0 {
        0
    } else {
        let who = balances.dom().choose();
        balances[who] as nat + total(balances.remove(who))
    }
}

#[via_fn]
proof fn total_decreases(balances: Map<AccountId, Balance>) {
    if balances.dom().len() != 0 {
        vstd::set_lib::lemma_set_empty_equivalency_len(balances.dom());
    }
}

/// The sum of all balances is the balance of any one account plus the sum of
/// the others.
pub proof fn lemma_total_split(balances: Map<AccountId, Balance>, who: AccountId)
    requires
        balances.dom().finite(),
        balances.dom().contains(who),
    ensures
        total(balances) == balances[who] + total(balances.remove(who)),
    decreases balances.dom().len(),
{
    vstd::set_lib::lemma_set_empty_equivalency_len(balances.dom());
    let first = balances.dom().choose();
    if first != who {
        lemma_total_split(balances.remove(first), who);
        lemma_total_split(balances.remove(who), first);
        assert(balances.remove(first).remove(who) =~= balances.remove(who).remove(first));
    }
}

/// Setting one account's balance changes the sum by the difference.
pub proof fn lemma_total_insert(balances: Map<AccountId, Balance>, who: AccountId, value: Balance)
    requires
        balances.dom().finite(),
    ensures
        total(balances.insert(who, value)) == total(balances) - balance(balances, who) + value,
{
    let after = balances.insert(who, value);
    lemma_total_split(after, who);
    assert(after.remove(who) =~= balances.remove(who));
    if balances.dom().contains(who) {
        lemma_total_split(balances, who);
    } else {
        assert(balances.remove(who) =~= balances);
    }
}

/// No account holds more than all accounts together.
pub proof fn lemma_balance_within_total(balances: Map<AccountId, Balance>, who: AccountId)
    requires
        balances.dom().finite(),
    ensures
        balance(balances, who) <= total(balances),
{
    if balances.dom().contains(who) {
        lemma_total_split(balances, who);
    }
}

/// Moving tokens between accounts leaves the sum of all balances as it was,
/// and the receiver's new balance within it.
pub proof fn lemma_moved_conserves_total(
    balances: Map<AccountId, Balance>,
    from: AccountId,
    to: AccountId,
    value: Balance,
)
    requires
        balances.dom().finite(),
        total(balances) <= Balance::MAX,
        balance(balances, from) >= value,
    ensures
        moved(balances, from, to, value).dom().finite(),
        total(moved(balances, from, to, value)) == total(balances),
        balance(balances.insert(from, (balance(balances, from) - value) as Balance), to) + value
            <= total(balances),
{
    let debited = balances.insert(from, (balance(balances, from) - value) as Balance);
    lemma_total_insert(balances, from, (balance(balances, from) - value) as Balance);
    lemma_balance_within_total(debited, to);
    lemma_total_insert(debited, to, (balance(debited, to) + value) as Balance);
}

/// What the token keeps, as mathematical values.
pub struct Erc20View {
    pub total_supply: Balance,
    /// What each account holds; an account without an entry holds nothing.
    pub balances: Map<AccountId, Balance>,
    /// What each spender may move on each owner's behalf, by `(owner, spender)`.
    pub allowances: Map<(AccountId, AccountId), Balance>,
}

/// The state after `value` moved from `from` to `to`.
pub open spec fn moved(
    balances: Map<AccountId, Balance>,
    from: AccountId,
    to: AccountId,
    value: Balance,
) -> Map<AccountId, Balance> {
    let debited = balances.insert(from, (balance(balances, from) - value) as Balance);
    debited.insert(to, (balance(debited, to) + value) as Balance)
}

/// The key under which the allowance of `spender` on `owner`'s tokens is kept.
pub open spec fn pair_key(owner: AccountId, spender: AccountId) -> u128 {
    (owner * 0x1_0000_0000_0000_0000 + spender) as u128
}

/// The token's books. Balances are kept under the account's number,
/// allowances under [`pair_key`].
pub struct Erc20 {
    total_supply: Balance,
    balances: StorageMap,
    allowances: StorageMap,
}

impl View for Erc20 {
    type V = Erc20View;

    closed spec fn view(&self) -> Erc20View {
        Erc20View {
            total_supply: self.total_supply,
            balances: Map::new(
                |who: AccountId| stored(self.balances).dom().contains(who as u128),
                |who: AccountId| stored(self.balances)[who as u128],
            ),
            allowances: Map::total(
                |p: (AccountId, AccountId)|
                    if stored(self.allowances).dom().contains(pair_key(p.0, p.1)) {
                        stored(self.allowances)[pair_key(p.0, p.1)]
                    } else {
                        0
                    },
            ),
        }
    }
}

impl Erc20 {
    /// The balances add up to the supply.
    pub open spec fn wf(&self) -> bool {
        &&& self@.balances.dom().finite()
        &&& total(self@.balances) == self@.total_supply
    }

    /// Computes [`pair_key`].
    fn key(owner: AccountId, spender: AccountId) -> (k: u128)
        ensures
            k == pair_key(owner, spender),
    {
        (owner as u128) * 0x1_0000_0000_0000_0000u128 + (spender as u128)
    }

    /// Makes a token whose whole supply `caller` holds, and announces the issue.
    pub fn new(caller: AccountId, supply: Balance) -> (made: (Self, Transfer))
        ensures
            made.0.wf(),
            made.0@.total_supply == supply,
            made.0@.balances == Map::<AccountId, Balance>::empty().insert(caller, supply),
            forall|p: (AccountId, AccountId)| #[trigger] made.0@.allowances[p] == 0,
            made.1 == (Transfer { from: None, to: Some(caller), value: supply }),
    {
        let mut balances = storage_new();
        storage_insert(&mut balances, caller as u128, supply);
        let token = Erc20 { total_supply: supply, balances, allowances: storage_new() };
        proof {
            lemma_total_insert(Map::<AccountId, Balance>::empty(), caller, supply);
            assert(token@.balances =~= Map::<AccountId, Balance>::empty().insert(caller, supply));
        }
        (token, Transfer { from: None, to: Some(caller), value: supply })
    }

    /// The supply, which never changes.
    pub fn total_supply(&self) -> (supply: Balance)
        ensures
            supply == self@.total_supply,
    {
        self.total_supply
    }

    /// What `who` holds.
    pub fn balance_of(&self, who: AccountId) -> (held: Balance)
        ensures
            held == balance(self@.balances, who),
    {
        match storage_get(&self.balances, who as u128) {
            Some(held) => held,
            None => 0,
        }
    }

    /// What `spender` may still move on `owner`'s behalf.
    pub fn allowance(&self, owner: AccountId, spender: AccountId) -> (allowed: Balance)
        ensures
            allowed == self@.allowances[(owner, spender)],
    {
        let k: u128 = Self::key(owner, spender);
        match storage_get(&self.allowances, k) {
            Some(allowed) => allowed,
            None => 0,
        }
    }

    /// Moves `value` of the caller's tokens to `to`.
    pub fn transfer(&mut self, caller: AccountId, to: AccountId, value: Balance) -> (res: Result<
        Transfer,
        Error,
    >)
        requires
            old(self).wf(),
        ensures
            final(self).wf(),
            final(self)@.total_supply == old(self)@.total_supply,
            final(self)@.allowances == old(self)@.allowances,
            balance(old(self)@.balances, caller) < value ==> res == Err::<Transfer, Error>(
                Error::InsufficientBalance,
            ) && *final(self) == *old(self),
            balance(old(self)@.balances, caller) >= value ==> res == Ok::<Transfer, Error>(
                (Transfer { from: Some(caller), to: Some(to), value }),
            ) && final(self)@.balances == moved(old(self)@.balances, caller, to, value),
    {
        self.inner_transfer(caller, to, value)
    }

    /// Moves `value` of `from`'s tokens to `to` on the strength of what `from`
    /// allowed the caller. Where the allowance falls short, nothing changes.
    /// Otherwise the allowance is lowered by `value` before the balance is
    /// looked at: where the balance falls short, the call fails with the
    /// allowance already spent and no tokens moved.
    pub fn transfer_from(
        &mut self,
        caller: AccountId,
        from: AccountId,
        to: AccountId,
        value: Balance,
    ) -> (res: Result<Transfer, Error>)
        requires
            old(self).wf(),
        ensures
            final(self).wf(),
            final(self)@.total_supply == old(self)@.total_supply,
            res == transfer_from_outcome(old(self)@, caller, from, to, value),
            old(self)@.allowances[(from, caller)] < value ==> *final(self) == *old(self),
            old(self)@.allowances[(from, caller)] >= value ==> final(self)@.allowances
                == old(self)@.allowances.insert(
                (from, caller),
                (old(self)@.allowances[(from, caller)] - value) as Balance,
            ),
            res is Err ==> final(self)@.balances == old(self)@.balances,
            res is Ok ==> final(self)@.balances == moved(old(self)@.balances, from, to, value),
    {
        let allowed: Balance = self.allowance(from, caller);
        if allowed < value {
            return Err(Error::InsufficientAllowance);
        }
        self.set_allowance(from, caller, allowed - value);
        self.inner_transfer(from, to, value)
    }

    /// Lets `spender` move up to `value` of the caller's tokens, whatever it
    /// was allowed before, and announces it. This cannot fail.
    pub fn approve(&mut self, caller: AccountId, spender: AccountId, value: Balance) -> (res: Result<
        Approval,
        Error,
    >)
        requires
            old(self).wf(),
        ensures
            final(self).wf(),
            res == Ok::<Approval, Error>((Approval { owner: caller, spender, value })),
            final(self)@.total_supply == old(self)@.total_supply,
            final(self)@.balances == old(self)@.balances,
            final(self)@.allowances == old(self)@.allowances.insert((caller, spender), value),
    {
        self.set_allowance(caller, spender, value);
        Ok(Approval { owner: caller, spender, value })
    }

    /// Records what `spender` may move on `owner`'s behalf.
    fn set_allowance(&mut self, owner: AccountId, spender: AccountId, value: Balance)
        ensures
            old(self).wf() ==> final(self).wf(),
            final(self)@.total_supply == old(self)@.total_supply,
            final(self)@.balances == old(self)@.balances,
            final(self)@.allowances == old(self)@.allowances.insert((owner, spender), value),
    {
        let k: u128 = Self::key(owner, spender);
        storage_insert(&mut self.allowances, k, value);
        assert(self@.balances =~= old(self)@.balances);
        assert(self@.allowances =~= old(self)@.allowances.insert((owner, spender), value));
    }

    /// Moves `value` from `from` to `to`, unless `from` holds less.
    fn inner_transfer(&mut self, from: AccountId, to: AccountId, value: Balance) -> (res: Result<
        Transfer,
        Error,
    >)
        requires
            old(self).wf(),
        ensures
            final(self).wf(),
            final(self)@.total_supply == old(self)@.total_supply,
            final(self)@.allowances == old(self)@.allowances,
            balance(old(self)@.balances, from) < value ==> res == Err::<Transfer, Error>(
                Error::InsufficientBalance,
            ) && *final(self) == *old(self),
            balance(old(self)@.balances, from) >= value ==> res == Ok::<Transfer, Error>(
                (Transfer { from: Some(from), to: Some(to), value }),
            ) && final(self)@.balances == moved(old(self)@.balances, from, to, value),
    {
        let from_balance: Balance = self.balance_of(from);
        if from_balance < value {
            return Err(Error::InsufficientBalance);
        }
        storage_insert(&mut self.balances, from as u128, from_balance - value);
        assert(self@.balances =~= old(self)@.balances.insert(
            from,
            (balance(old(self)@.balances, from) - value) as Balance,
        ));
        let ghost debited = self@.balances;
        let to_balance: Balance = self.balance_of(to);
        proof {
            lemma_moved_conserves_total(old(self)@.balances, from, to, value);
        }
        storage_insert(&mut self.balances, to as u128, to_balance + value);
        assert(self@.balances =~= debited.insert(to, (balance(debited, to) + value) as Balance));
        Ok(Transfer { from: Some(from), to: Some(to), value })
    }
}

/// What a transfer on an owner's behalf returns.
pub open spec fn transfer_from_outcome(
    token: Erc20View,
    caller: AccountId,
    from: AccountId,
    to: AccountId,
    value: Balance,
) -> Result<Transfer, Error> {
    if token.allowances[(from, caller)] < value {
        Err(Error::InsufficientAllowance)
    } else if balance(token.balances, from) < value {
        Err(Error::InsufficientBalance)
    } else {
        Ok(Transfer { from: Some(from), to: Some(to), value })
    }
}

} // verus!
