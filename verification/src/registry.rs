//! The registry: the one record of each kitty's attributes, owner and price.

use crate::types::{AccountId, Balance, Error, Kitty, KittyIndex, KittyView};
use std::collections::HashMap;
use vstd::prelude::*;

verus! {

broadcast use vstd::std_specs::hash::group_hash_axioms;

/// The record of every kitty, by identifier.
pub struct Kitties {
    records: HashMap<KittyIndex, Kitty>,
}

impl View for Kitties {
    type V = Map<KittyIndex, KittyView>;

    closed spec fn view(&self) -> Map<KittyIndex, KittyView> {
        self.records@.map_values(|k: Kitty| k@)
    }
}

impl Kitties {
    /// The registry without any kitty.
    pub fn new() -> (registry: Self)
        ensures
            registry@ == Map::<KittyIndex, KittyView>::empty(),
    {
        let registry = Kitties { records: HashMap::new() };
        registry
    }

    /// Whether a kitty is recorded under `id`.
    pub fn contains(&self, id: KittyIndex) -> (found: bool)
        ensures
            found == self@.dom().contains(id),
    {
        self.records.contains_key(&id)
    }

    /// The record of kitty `id`, or `None` where there is no such kitty.
    pub fn get(&self, id: KittyIndex) -> (found: Option<Kitty>)
        ensures
            found is Some <==> self@.dom().contains(id),
            found matches Some(kitty) ==> kitty@ == self@[id],
    {
        match self.records.get(&id) {
            Some(kitty) => Some(*kitty),
            None => None,
        }
    }

    /// Records a new kitty under `id`. Where `id` is in use already, nothing
    /// changes and the call fails.
    pub fn insert(&mut self, id: KittyIndex, kitty: Kitty) -> (res: Result<(), Error>)
        ensures
            old(self)@.dom().contains(id) ==> res == Err::<(), Error>(Error::KittyAlreadyExists)
                && *final(self) == *old(self),
            !old(self)@.dom().contains(id) ==> res is Ok && final(self)@ == old(self)@.insert(
                id,
                kitty@,
            ),
    {
        if self.records.contains_key(&id) {
            return Err(Error::KittyAlreadyExists);
        }
        self.records.insert(id, kitty);
        Ok(())
    }

    /// Lists kitty `id` at `price`, or delists it with `None`. Where there is
    /// no such kitty, nothing changes and the call fails.
    pub fn set_price(&mut self, id: KittyIndex, price: Option<Balance>) -> (res: Result<(), Error>)
        ensures
            !old(self)@.dom().contains(id) ==> res == Err::<(), Error>(Error::InvalidKittyIndex)
                && *final(self) == *old(self),
            old(self)@.dom().contains(id) ==> res is Ok && final(self)@ == old(self)@.insert(
                id,
                (KittyView { price, ..old(self)@[id] }),
            ),
    {
        match self.get(id) {
            None => Err(Error::InvalidKittyIndex),
            Some(kitty) => {
                let updated = Kitty { price, ..kitty };
                self.records.insert(id, updated);
                Ok(())
            },
        }
    }

    /// Makes `owner` the owner of kitty `id`. Where there is no such kitty,
    /// nothing changes and the call fails.
    pub fn set_owner(&mut self, id: KittyIndex, owner: AccountId) -> (res: Result<(), Error>)
        ensures
            !old(self)@.dom().contains(id) ==> res == Err::<(), Error>(Error::InvalidKittyIndex)
                && *final(self) == *old(self),
            old(self)@.dom().contains(id) ==> res is Ok && final(self)@ == old(self)@.insert(
                id,
                (KittyView { owner, ..old(self)@[id] }),
            ),
    {
        match self.get(id) {
            None => Err(Error::InvalidKittyIndex),
            Some(kitty) => {
                let updated = Kitty { owner, ..kitty };
                self.records.insert(id, updated);
                Ok(())
            },
        }
    }
}

} // verus!
