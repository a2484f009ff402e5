//! The injected keyed store: one pet record and one coin balance per
//! owner.  The engine reads and writes records only through this
//! abstraction, so any persistence backend can stand behind it.

use crate::pet::Pet;
use std::collections::HashMap;
use vstd::prelude::*;

verus! {

/// Names the two per-owner entries of the keyed store.
pub enum DataKey {
    Pet(u64),
    Coins(u64),
}

/// The keyed store itself.
pub struct Store {
    pub pets: HashMap<u64, Pet>,
    pub coins: HashMap<u64, i128>,
}

/// Whether a pet record exists for the owner.
pub open spec fn has_pet(s: Store, owner: u64) -> bool {
    s.pets@.contains_key(owner)
}

/// The pet record stored for the owner.
pub open spec fn pet_of(s: Store, owner: u64) -> Pet {
    s.pets@[owner]
}

/// The coin balance stored for the owner; absent means zero.
pub open spec fn coins_of(s: Store, owner: u64) -> i128 {
    if s.coins@.contains_key(owner) {
        s.coins@[owner]
    } else {
        0
    }
}

impl Store {
    /// The store invariant: every record is well-formed and keyed by its
    /// own owner, and no balance is negative.
    pub open spec fn wf(self) -> bool {
        &&& forall|o: u64| #[trigger]
            self.pets@.contains_key(o) ==> self.pets@[o].wf() && self.pets@[o].owner == o
        &&& forall|o: u64| #[trigger] self.coins@.contains_key(o) ==> self.coins@[o] >= 0
    }

    /// An empty store.
    pub fn new() -> (s: Store)
        ensures
            s.pets@ == Map::<u64, Pet>::empty(),
            s.coins@ == Map::<u64, i128>::empty(),
            s.wf(),
    {
        Store { pets: HashMap::new(), coins: HashMap::new() }
    }

    /// Whether the given entry exists.
    pub fn has(&self, key: &DataKey) -> (present: bool)
        ensures
            present == (match *key {
                DataKey::Pet(o) => self.pets@.contains_key(o),
                DataKey::Coins(o) => self.coins@.contains_key(o),
            }),
    {
        match key {
            DataKey::Pet(o) => self.pets.contains_key(o),
            DataKey::Coins(o) => self.coins.contains_key(o),
        }
    }

    /// The owner's pet record, if any.
    pub fn get_pet(&self, owner: u64) -> (r: Option<&Pet>)
        ensures
            match r {
                Some(p) => has_pet(*self, owner) && *p == pet_of(*self, owner),
                None => !has_pet(*self, owner),
            },
    {
        self.pets.get(&owner)
    }

    /// Stores the owner's pet record.
    pub fn set_pet(&mut self, owner: u64, pet: Pet)
        ensures
            final(self).pets@ == old(self).pets@.insert(owner, pet),
            final(self).coins@ == old(self).coins@,
    {
        self.pets.insert(owner, pet);
    }

    /// The owner's coin balance, if one was ever stored.
    pub fn get_coins(&self, owner: u64) -> (r: Option<i128>)
        ensures
            match r {
                Some(c) => self.coins@.contains_key(owner) && c == self.coins@[owner],
                None => !self.coins@.contains_key(owner),
            },
    {
        match self.coins.get(&owner) {
            Some(c) => Some(*c),
            None => None,
        }
    }

    /// Stores the owner's coin balance.
    pub fn set_coins(&mut self, owner: u64, balance: i128)
        ensures
            final(self).coins@ == old(self).coins@.insert(owner, balance),
            final(self).pets@ == old(self).pets@,
    {
        self.coins.insert(owner, balance);
    }
}

} // verus!
