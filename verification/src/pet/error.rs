//! Why a call to the pet was turned down.

use vstd::prelude::*;
use vstd::string::StringExecFns;

verus! {

/// The reason a call failed. A failed call leaves the store as it was.
#[derive(Debug, PartialEq, Eq)]
pub enum PetError {
    /// The pet was to be created without a name.
    EmptyName,
    /// The sender is not the owner.
    Unauthorised,
    /// The amount is greater than 10.
    AmountOutOfRange,
    /// The pet is too tired to play.
    NotEnoughEnergy,
    /// The password is not the one that was set.
    IncorrectPassword,
    /// No owner is stored.
    OwnerNotFound,
    /// No pet is stored.
    PetNotFound,
    /// No password is stored.
    PasswordNotFound,
    /// The new owner's address did not pass validation; the text is the
    /// validator's own.
    InvalidAddress(String),
}

impl Clone for PetError {
    fn clone(&self) -> (copy: PetError)
        ensures
            copy == *self,
    {
        match self {
            PetError::EmptyName => PetError::EmptyName,
            PetError::Unauthorised => PetError::Unauthorised,
            PetError::AmountOutOfRange => PetError::AmountOutOfRange,
            PetError::NotEnoughEnergy => PetError::NotEnoughEnergy,
            PetError::IncorrectPassword => PetError::IncorrectPassword,
            PetError::OwnerNotFound => PetError::OwnerNotFound,
            PetError::PetNotFound => PetError::PetNotFound,
            PetError::PasswordNotFound => PetError::PasswordNotFound,
            PetError::InvalidAddress(reason) => PetError::InvalidAddress(reason.clone()),
        }
    }
}

impl PetError {
    /// The text shown to a caller for this error.
    pub open spec fn message_spec(self) -> Seq<char> {
        match self {
            PetError::EmptyName => "Name cannot be empty"@,
            PetError::Unauthorised => "Unauthorised"@,
            PetError::AmountOutOfRange => "Amount must be between 0 and 10"@,
            PetError::NotEnoughEnergy => "Not enough energy"@,
            PetError::IncorrectPassword => "Incorrect Password"@,
            PetError::OwnerNotFound => "Owner not found"@,
            PetError::PetNotFound => "Pet not found"@,
            PetError::PasswordNotFound => "Password not found"@,
            PetError::InvalidAddress(reason) => reason@,
        }
    }

    /// The text shown to a caller for this error.
    pub fn message(&self) -> (text: String)
        ensures
            text@ == self.message_spec(),
    {
        match self {
            PetError::EmptyName => String::from_str("Name cannot be empty"),
            PetError::Unauthorised => String::from_str("Unauthorised"),
            PetError::AmountOutOfRange => String::from_str("Amount must be between 0 and 10"),
            PetError::NotEnoughEnergy => String::from_str("Not enough energy"),
            PetError::IncorrectPassword => String::from_str("Incorrect Password"),
            PetError::OwnerNotFound => String::from_str("Owner not found"),
            PetError::PetNotFound => String::from_str("Pet not found"),
            PetError::PasswordNotFound => String::from_str("Password not found"),
            PetError::InvalidAddress(reason) => reason.clone(),
        }
    }
}

} // verus!
