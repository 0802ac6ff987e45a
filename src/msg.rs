use vstd::prelude::*;

verus! {

/// What a new contract instance is created with.
pub struct InstantiateMsg {
    /// Name of the pet; must not be empty.
    pub pet_name: String,
    /// Owner of the pet, already accepted by the host as an address; the
    /// creator when absent.
    pub pet_owner: Option<String>,
}

/// A command that changes the stored records. Only the owner may send one.
pub enum ExecuteMsg {
    /// Set a new password for reading the pet's status.
    SetPassword { password: String },
    /// Feed the pet: hunger goes down by `amount`.
    Feed { amount: u8 },
    /// Play with the pet: happiness goes up by `amount`, energy down by one.
    Play { amount: u8 },
    /// Let the pet rest: energy goes up by `amount`.
    Rest { amount: u8 },
    /// Hand the pet to another owner. `new_owner` is the address as the host
    /// validated it, or `None` where the host refused the text.
    Transfer { new_owner: Option<String> },
}

/// A read of the pet's state. Each needs the password.
pub enum QueryMsg {
    /// Whether the pet is hungry.
    IsHungry { password: String },
    /// The pet's name and levels.
    GetStatus { password: String },
}

/// The answer to a [`QueryMsg`].
pub enum QueryAnswer {
    IsHungry { is_hungry: bool },
    GetStatus { pet_name: String, hunger_level: u8, happiness_level: u8, energy_level: u8 },
}

} // verus!
