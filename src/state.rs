use vstd::prelude::*;

verus! {

/// Highest value any of the three vital levels may take.
pub const MAX_LEVEL: u8 = 10;

/// Level that each vital starts at.
pub const START_LEVEL: u8 = 5;

/// The one pet of a contract instance.
#[derive(Clone, Debug, PartialEq, Eq)]
pub struct Pet {
    pub name: String,
    pub hunger_level: u8,
    pub happiness_level: u8,
    pub energy_level: u8,
    /// Height of the last change to the levels.
    pub last_action_block: u64,
}

impl Pet {
    /// All three levels lie in `[0, MAX_LEVEL]`.
    pub open spec fn levels_in_range(&self) -> bool {
        &&& self.hunger_level <= MAX_LEVEL
        &&& self.happiness_level <= MAX_LEVEL
        &&& self.energy_level <= MAX_LEVEL
    }
}

/// The three records of a contract instance: the pet, its owner's address and
/// the password, which stays unset until the owner first sets one.
pub struct State {
    pub pet: Pet,
    pub owner: String,
    pub password: Option<String>,
}

impl State {
    /// The pet has a name and its levels are in range.
    pub open spec fn inv(&self) -> bool {
        &&& self.pet.name@.len() > 0
        &&& self.pet.levels_in_range()
    }

    /// Whether the records hold the invariant; for records read back from
    /// storage.
    pub fn is_valid(&self) -> (r: bool)
        ensures
            r == self.inv(),
    {
        !self.pet.name.as_str().is_empty() && self.pet.hunger_level <= MAX_LEVEL
            && self.pet.happiness_level <= MAX_LEVEL && self.pet.energy_level <= MAX_LEVEL
    }
}

} // verus!
