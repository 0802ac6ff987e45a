use vstd::prelude::*;

verus! {

/// Why a call was refused. A refused call leaves the stored records as they were.
#[derive(Clone, Copy, Debug, PartialEq, Eq, Structural)]
pub enum ContractError {
    /// The pet's name was empty at creation.
    EmptyName,
    /// The caller is not the current owner.
    Unauthorized,
    /// No password is set, or the one given differs from it.
    WrongPassword,
    /// An action amount lies outside `[0, 10]`.
    AmountOutOfRange,
    /// The pet has no energy left to play.
    TooTired,
    /// The host refused the text as an address.
    InvalidIdentity,
}

impl ContractError {
    /// A human-readable reason for the refusal.
    pub fn message(&self) -> (r: &'static str) {
        match self {
            ContractError::EmptyName => "Pet name must not be empty",
            ContractError::Unauthorized => "Unauthorized",
            ContractError::WrongPassword => "Wrong password",
            ContractError::AmountOutOfRange => "Amount must be between 0 and 10",
            ContractError::TooTired => "Pet is too tired to play",
            ContractError::InvalidIdentity => "Invalid address",
        }
    }
}

} // verus!
