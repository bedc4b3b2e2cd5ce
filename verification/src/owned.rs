//! The ownership index: for each account, the bounded list of the kitties it
//! owns, in the order it acquired them.

use crate::types::{AccountId, Error, KittyIndex};
use frame_support::traits::ConstU32;
use frame_support::BoundedVec;
use std::collections::HashMap;
use vstd::prelude::*;

verus! {

broadcast use vstd::std_specs::hash::group_hash_axioms;

/// The most kitties that a list can hold. The host's maximum per account is
/// at most this.
pub const KITTIES_OWNED_LIMIT: u32 = 10_000;

/// The maximum per account that is in force when the host asks for `max`: a
/// maximum above what a list can hold counts as what a list can hold.
pub open spec fn max_in_force(max: u32) -> u32 {
    if max <= KITTIES_OWNED_LIMIT {
        max
    } else {
        KITTIES_OWNED_LIMIT
    }
}

/// `frame_support::BoundedVec`, which `frame_support` has from the crate
/// `bounded-collections`: a vector that never holds more items than its second
/// parameter says. Nothing is known of a value but what [`owned_ids`] names.
#[verifier::external_type_specification]
#[verifier::external_body]
#[verifier::reject_recursive_types(T)]
#[verifier::reject_recursive_types(S)]
pub struct ExBoundedVec<T, S>(BoundedVec<T, S>);

/// `frame_support::traits::ConstU32`, which stands for a number in a type.
#[verifier::external_type_specification]
#[verifier::external_body]
pub struct ExConstU32<const T: u32>(ConstU32<T>);

/// The identifiers that a bounded list holds, first added first.
pub uninterp spec fn owned_ids(list: BoundedVec<KittyIndex, ConstU32<KITTIES_OWNED_LIMIT>>) -> Seq<
    KittyIndex,
>;

/// Calls `frame_support::BoundedVec::new`, which makes a list without items.
#[verifier::external_body]
fn list_new() -> (list: BoundedVec<KittyIndex, ConstU32<KITTIES_OWNED_LIMIT>>)
    ensures
        owned_ids(list) == Seq::<KittyIndex>::empty(),
{
    BoundedVec::new()
}

/// Calls `frame_support::BoundedVec::try_push`. While the list holds fewer
/// items than its bound, the item is appended; otherwise it is handed back and
/// the list is left as it was. A list of at most ten thousand identifiers
/// stays far below the size at which a vector's allocation fails.
#[verifier::external_body]
fn list_try_push(
    list: &mut BoundedVec<KittyIndex, ConstU32<KITTIES_OWNED_LIMIT>>,
    id: KittyIndex,
) -> (res: Result<(), KittyIndex>)
    ensures
        res is Ok <==> owned_ids(*old(list)).len() < KITTIES_OWNED_LIMIT,
        res is Ok ==> owned_ids(*final(list)) == owned_ids(*old(list)).push(id),
        res is Err ==> res->Err_0 == id && owned_ids(*final(list)) == owned_ids(*old(list)),
{
    list.try_push(id)
}

/// Calls `frame_support::BoundedVec::remove`, which takes out the item at
/// `index`, moves the later items one place down and returns the item. It
/// panics on an index beyond the last item.
#[verifier::external_body]
fn list_remove(list: &mut BoundedVec<KittyIndex, ConstU32<KITTIES_OWNED_LIMIT>>, index: usize) -> (id:
    KittyIndex)
    requires
        index < owned_ids(*old(list)).len(),
    ensures
        id == owned_ids(*old(list))[index as int],
        owned_ids(*final(list)) == owned_ids(*old(list)).remove(index as int),
{
    list.remove(index)
}

/// Calls `AsRef<[T]>::as_ref` of `frame_support::BoundedVec`, which lends the
/// items as a slice.
#[verifier::external_body]
fn list_as_slice(list: &BoundedVec<KittyIndex, ConstU32<KITTIES_OWNED_LIMIT>>) -> (ids: &[KittyIndex])
    ensures
        ids@ == owned_ids(*list),
{
    list.as_ref()
}

/// Finds the first place at which `id` stands in `ids`.
pub fn position(ids: &[KittyIndex], id: KittyIndex) -> (at: Option<usize>)
    ensures
        at is Some <==> ids@.contains(id),
        at matches Some(k) ==> k < ids@.len() && ids@.index_of_first(id) == Some(k as int),
{
    let mut k: usize = 0;
    while k < ids.len()
        invariant
            k <= ids.len(),
            forall|j: int| 0 <= j < k ==> ids@[j] != id,
        decreases ids.len() - k,
    {
        if ids[k] == id {
            proof {
                ids@.index_of_first_ensures(id);
            }
            return Some(k);
        }
        k = k + 1;
    }
    None
}

/// For each account the kitties it owns, and the most that one account may
/// own. An account that never owned one has the empty list.
pub struct KittiesOwned {
    lists: HashMap<AccountId, BoundedVec<KittyIndex, ConstU32<KITTIES_OWNED_LIMIT>>>,
    max: u32,
}

impl View for KittiesOwned {
    type V = Map<AccountId, Seq<KittyIndex>>;

    closed spec fn view(&self) -> Map<AccountId, Seq<KittyIndex>> {
        Map::total(
            |a: AccountId|
                if self.lists@.contains_key(a) {
                    owned_ids(self.lists@[a])
                } else {
                    Seq::<KittyIndex>::empty()
                },
        )
    }
}

impl KittiesOwned {
    /// The most kitties that one account may own.
    pub closed spec fn max(&self) -> u32 {
        self.max
    }

    /// The maximum is one that a list can hold, and no account owns more.
    pub open spec fn wf(&self) -> bool {
        &&& self.max() <= KITTIES_OWNED_LIMIT
        &&& forall|a: AccountId| #[trigger] self@[a].len() <= self.max()
    }

    /// The index in which no account owns anything and one account may own
    /// `max` kitties, or as many as a list can hold if `max` is more.
    pub fn new(max: u32) -> (index: Self)
        ensures
            index@ == Map::total(|a: AccountId| Seq::<KittyIndex>::empty()),
            index.max() == max_in_force(max),
            index.wf(),
    {
        let max: u32 = if max <= KITTIES_OWNED_LIMIT {
            max
        } else {
            KITTIES_OWNED_LIMIT
        };
        KittiesOwned { lists: HashMap::new(), max }
    }

    /// The most kitties that one account may own.
    pub fn max_owned(&self) -> (max: u32)
        ensures
            max == self.max(),
    {
        self.max
    }

    /// The kitties of `who`, oldest acquisition first.
    pub fn owned_by(&self, who: AccountId) -> (ids: Vec<KittyIndex>)
        ensures
            ids@ == self@[who],
    {
        match self.lists.get(&who) {
            Some(list) => vstd::slice::slice_to_vec(list_as_slice(list)),
            None => Vec::new(),
        }
    }

    /// How many kitties `who` owns.
    pub fn count(&self, who: AccountId) -> (n: usize)
        ensures
            n == self@[who].len(),
    {
        match self.lists.get(&who) {
            Some(list) => list_as_slice(list).len(),
            None => 0,
        }
    }

    /// Whether `who` owns as many kitties as one account may.
    pub fn is_full(&self, who: AccountId) -> (full: bool)
        ensures
            full == (self@[who].len() >= self.max()),
    {
        self.count(who) >= self.max as usize
    }

    /// Whether `id` is among the kitties of `who`.
    pub fn holds(&self, who: AccountId, id: KittyIndex) -> (held: bool)
        ensures
            held == self@[who].contains(id),
    {
        match self.lists.get(&who) {
            Some(list) => position(list_as_slice(list), id).is_some(),
            None => false,
        }
    }

    /// Appends `id` to the kitties of `owner`, unless `owner` already owns as
    /// many as one account may; then nothing changes.
    pub fn add(&mut self, owner: AccountId, id: KittyIndex) -> (res: Result<(), Error>)
        requires
            old(self).wf(),
        ensures
            final(self).wf(),
            final(self).max() == old(self).max(),
            old(self)@[owner].len() >= old(self).max() ==> res == Err::<(), Error>(
                Error::ExceedMaxKittyOwned,
            ) && *final(self) == *old(self),
            old(self)@[owner].len() < old(self).max() ==> res is Ok && final(self)@ == old(self)@.insert(owner, old(self)@[owner].push(id)),
    {
        if self.is_full(owner) {
            return Err(Error::ExceedMaxKittyOwned);
        }
        let mut list = match self.lists.remove(&owner) {
            Some(list) => list,
            None => list_new(),
        };
        let _ = list_try_push(&mut list, id);
        self.lists.insert(owner, list);
        assert(self@ =~= old(self)@.insert(owner, old(self)@[owner].push(id)));
        Ok(())
    }

    /// Takes the first occurrence of `id` out of the kitties of `owner` and
    /// says whether there was one.
    pub fn remove(&mut self, owner: AccountId, id: KittyIndex) -> (found: bool)
        ensures
            found == old(self)@[owner].contains(id),
            found ==> final(self)@ == old(self)@.insert(owner, old(self)@[owner].remove_value(id)),
            !found ==> *final(self) == *old(self),
            final(self).max() == old(self).max(),
            old(self).wf() ==> final(self).wf(),
    {
        let at = match self.lists.get(&owner) {
            Some(list) => position(list_as_slice(list), id),
            None => None,
        };
        match at {
            None => false,
            Some(k) => {
                match self.lists.remove(&owner) {
                    Some(mut list) => {
                        let _ = list_remove(&mut list, k);
                        self.lists.insert(owner, list);
                    },
                    None => {},
                }
                true
            },
        }
    }

    /// Moves `id` from the kitties of `from` to the end of those of `to`. This
    /// fails, and changes nothing, when `from` does not hold `id` or when `to`
    /// is another account that already owns as many as one account may.
    pub fn transfer(&mut self, from: AccountId, to: AccountId, id: KittyIndex) -> (res: Result<
        (),
        Error,
    >)
        requires
            old(self).wf(),
        ensures
            final(self).wf(),
            final(self).max() == old(self).max(),
            res == transfer_outcome(old(self)@, old(self).max(), from, to, id),
            res is Err ==> *final(self) == *old(self),
            res is Ok ==> final(self)@ == transferred(old(self)@, from, to, id),
    {
        if !self.holds(from, id) {
            return Err(Error::NotKittyOwner);
        }
        if from != to && self.is_full(to) {
            return Err(Error::ExceedMaxKittyOwned);
        }
        let ghost before = self@;
        let _ = self.remove(from, id);
        proof {
            before[from].index_of_first_ensures(id);
            before[from].remove_ensures(before[from].index_of_first(id)->Some_0);
        }
        let _ = self.add(to, id);
        Ok(())
    }
}

/// Whether `id` can pass from `from` to `to` where one account may own `max`
/// kitties, and why not if it cannot.
pub open spec fn transfer_outcome(
    owned: Map<AccountId, Seq<KittyIndex>>,
    max: u32,
    from: AccountId,
    to: AccountId,
    id: KittyIndex,
) -> Result<(), Error> {
    if !owned[from].contains(id) {
        Err(Error::NotKittyOwner)
    } else if from != to && owned[to].len() >= max {
        Err(Error::ExceedMaxKittyOwned)
    } else {
        Ok(())
    }
}

/// The lists after `id` left `from` and joined the end of `to`.
pub open spec fn transferred(
    owned: Map<AccountId, Seq<KittyIndex>>,
    from: AccountId,
    to: AccountId,
    id: KittyIndex,
) -> Map<AccountId, Seq<KittyIndex>> {
    let without = owned.insert(from, owned[from].remove_value(id));
    without.insert(to, without[to].push(id))
}

} // verus!
