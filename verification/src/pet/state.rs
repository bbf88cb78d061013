//! The pet and the store that holds it.

use vstd::prelude::*;
use crate::account::AccountId;

verus! {

/// How many blocks make one step of drift.
pub const BLOCK_SCALING_FACTOR: u64 = 10;

/// The highest level of hunger, happiness and energy.
pub const MAX_LEVEL: u8 = 10;

/// The level of every need of a new pet.
pub const START_LEVEL: u8 = 5;

/// The hunger from which a pet counts as hungry.
pub const HUNGRY_FROM: u8 = 7;

/// A pet: its name, its three levels and the block of the last action on
/// it.
#[derive(Debug, PartialEq, Eq)]
pub struct Pet {
    pub name: String,
    pub hunger_level: u8,
    pub happiness_level: u8,
    pub energy_level: u8,
    pub last_action_block: u64,
}

impl Clone for Pet {
    fn clone(&self) -> (copy: Pet)
        ensures
            copy == *self,
    {
        Pet {
            name: self.name.clone(),
            hunger_level: self.hunger_level,
            happiness_level: self.happiness_level,
            energy_level: self.energy_level,
            last_action_block: self.last_action_block,
        }
    }
}

/// The smaller of two numbers.
pub open spec fn least(a: int, b: int) -> int {
    if a <= b {
        a
    } else {
        b
    }
}

impl Pet {
    /// A new pet at block `height`.
    pub open spec fn newborn(name: String, height: u64) -> Pet {
        Pet {
            name,
            hunger_level: START_LEVEL,
            happiness_level: START_LEVEL,
            energy_level: START_LEVEL,
            last_action_block: height,
        }
    }

    /// No level is above the highest.
    pub open spec fn in_range(self) -> bool {
        &&& self.hunger_level <= MAX_LEVEL
        &&& self.happiness_level <= MAX_LEVEL
        &&& self.energy_level <= MAX_LEVEL
    }

    /// The steps of drift between the last action and block `height`: one
    /// for every ten blocks.
    pub open spec fn steps_since(self, height: u64) -> int {
        (height - self.last_action_block) / (BLOCK_SCALING_FACTOR as int)
    }

    /// The steps of drift that an action at block `height` applies: at
    /// most ten.
    pub open spec fn drift(self, height: u64) -> int {
        least(self.steps_since(height), 10)
    }

    /// Whether the drift up to block `height` can be applied: the block
    /// does not lie before the last action, and the hunger with the drift
    /// added fits in a byte.
    pub open spec fn can_drift(self, height: u64) -> bool {
        &&& height >= self.last_action_block
        &&& self.hunger_level + self.drift(height) <= u8::MAX
    }

    /// The pet with the drift up to block `height` applied: hunger up by
    /// one per step and at most 10, happiness down by one per step and at
    /// least 0, energy at most 10, and `height` as the block of the last
    /// action.
    pub open spec fn drifted(self, height: u64) -> Pet {
        Pet {
            name: self.name,
            hunger_level: least(self.hunger_level + self.drift(height), MAX_LEVEL as int) as u8,
            happiness_level: if self.happiness_level >= self.drift(height) {
                (self.happiness_level - self.drift(height)) as u8
            } else {
                0
            },
            energy_level: least(self.energy_level as int, MAX_LEVEL as int) as u8,
            last_action_block: height,
        }
    }

    /// The steps of drift that a query at block `height` counts: the steps
    /// since the last action, cut down to a byte.
    pub open spec fn seen_drift(self, height: u64) -> int {
        self.steps_since(height) % 256
    }

    /// The hunger that a query at block `height` reports: the hunger with
    /// the counted drift added, at most 10.
    pub open spec fn seen_hunger(self, height: u64) -> int {
        least(self.hunger_level + self.seen_drift(height), MAX_LEVEL as int)
    }

    /// Whether a query at block `height` can report the hunger: the block
    /// does not lie before the last action, and the hunger with the
    /// counted drift added fits in a byte.
    pub open spec fn can_see_hunger(self, height: u64) -> bool {
        &&& height >= self.last_action_block
        &&& self.hunger_level + self.seen_drift(height) <= u8::MAX
    }

    /// Whether a query at block `height` can report the happiness as well:
    /// the counted drift is no more than the happiness.
    pub open spec fn can_see_status(self, height: u64) -> bool {
        &&& self.can_see_hunger(height)
        &&& self.seen_drift(height) <= self.happiness_level
    }

    /// A new pet at block `height`.
    pub fn new(name: String, height: u64) -> (pet: Pet)
        ensures
            pet == Pet::newborn(name, height),
            pet.in_range(),
    {
        Pet {
            name,
            hunger_level: START_LEVEL,
            happiness_level: START_LEVEL,
            energy_level: START_LEVEL,
            last_action_block: height,
        }
    }

    /// Whether the drift up to block `height` can be applied.
    pub fn check_drift(&self, height: u64) -> (possible: bool)
        ensures
            possible == self.can_drift(height),
    {
        if height < self.last_action_block {
            return false;
        }
        let steps: u64 = (height - self.last_action_block) / BLOCK_SCALING_FACTOR;
        let blocks_passed: u8 = if steps < 10 {
            steps as u8
        } else {
            10
        };
        self.hunger_level <= u8::MAX - blocks_passed
    }

    /// Whether a query at block `height` can report the hunger.
    pub fn check_hunger_seen(&self, height: u64) -> (possible: bool)
        ensures
            possible == self.can_see_hunger(height),
    {
        if height < self.last_action_block {
            return false;
        }
        let steps: u64 = (height - self.last_action_block) / BLOCK_SCALING_FACTOR;
        let blocks_passed: u8 = (steps % 256) as u8;
        self.hunger_level <= u8::MAX - blocks_passed
    }

    /// Whether a query at block `height` can report the whole status.
    pub fn check_status_seen(&self, height: u64) -> (possible: bool)
        ensures
            possible == self.can_see_status(height),
    {
        if !self.check_hunger_seen(height) {
            return false;
        }
        let steps: u64 = (height - self.last_action_block) / BLOCK_SCALING_FACTOR;
        let blocks_passed: u8 = (steps % 256) as u8;
        blocks_passed <= self.happiness_level
    }

    /// The pet with the drift up to block `height` applied.
    pub fn drift_to(&self, height: u64) -> (pet: Pet)
        requires
            self.can_drift(height),
        ensures
            pet == self.drifted(height),
            pet.hunger_level <= MAX_LEVEL,
            pet.energy_level <= MAX_LEVEL,
            pet.happiness_level <= self.happiness_level,
            self.in_range() ==> pet.in_range(),
    {
        let steps: u64 = (height - self.last_action_block) / BLOCK_SCALING_FACTOR;
        let blocks_passed: u8 = if steps < 10 {
            steps as u8
        } else {
            10
        };
        let raised: u8 = self.hunger_level + blocks_passed;
        let hunger_level: u8 = if raised < MAX_LEVEL {
            raised
        } else {
            MAX_LEVEL
        };
        let happiness_level: u8 = if self.happiness_level >= blocks_passed {
            self.happiness_level - blocks_passed
        } else {
            0
        };
        let energy_level: u8 = if self.energy_level > MAX_LEVEL {
            MAX_LEVEL
        } else {
            self.energy_level
        };
        Pet {
            name: self.name.clone(),
            hunger_level,
            happiness_level,
            energy_level,
            last_action_block: height,
        }
    }

    /// The hunger that a query at block `height` reports.
    pub fn hunger_seen_at(&self, height: u64) -> (hunger: u8)
        requires
            self.can_see_hunger(height),
        ensures
            hunger == self.seen_hunger(height),
    {
        let steps: u64 = (height - self.last_action_block) / BLOCK_SCALING_FACTOR;
        let blocks_passed: u8 = (steps % 256) as u8;
        let raised: u8 = self.hunger_level + blocks_passed;
        if raised < MAX_LEVEL {
            raised
        } else {
            MAX_LEVEL
        }
    }

    /// The happiness that a query at block `height` reports: the happiness
    /// less the counted drift.
    pub fn happiness_seen_at(&self, height: u64) -> (happiness: u8)
        requires
            self.can_see_status(height),
        ensures
            happiness == self.happiness_level - self.seen_drift(height),
    {
        let steps: u64 = (height - self.last_action_block) / BLOCK_SCALING_FACTOR;
        let blocks_passed: u8 = (steps % 256) as u8;
        self.happiness_level - blocks_passed
    }
}

/// The three slots of the pet's store. A slot is empty until it is first
/// written.
#[derive(Debug, PartialEq, Eq)]
pub struct PetStore {
    pub owner: Option<AccountId>,
    pub pet: Option<Pet>,
    pub password: Option<String>,
}

impl PetStore {
    /// A store with every slot empty.
    pub fn new() -> (store: PetStore)
        ensures
            store.owner is None,
            store.pet is None,
            store.password is None,
    {
        PetStore { owner: None, pet: None, password: None }
    }
}

} // verus!
