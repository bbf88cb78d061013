//! The calls that the pet takes and the answers it gives.

use vstd::prelude::*;
use crate::account::AccountId;

verus! {

/// Creates the pet. Its owner is `owner`, or the sender where none is
/// named.
#[derive(Debug, PartialEq, Eq)]
pub struct InstantiateMsg {
    pub name: String,
    pub owner: Option<AccountId>,
}

impl Clone for InstantiateMsg {
    fn clone(&self) -> (copy: InstantiateMsg)
        ensures
            copy == *self,
    {
        InstantiateMsg {
            name: self.name.clone(),
            owner: match &self.owner {
                Some(owner) => Some(owner.clone()),
                None => None,
            },
        }
    }
}

/// An action on the pet.
#[derive(Debug, PartialEq, Eq)]
pub enum ExecuteMsg {
    /// Sets the password that queries must present.
    SetPassword { password: String },
    /// Feeds the pet: lowers its hunger by `amount`.
    Feed { amount: u8 },
    /// Plays with the pet: raises its happiness by `amount` for one point
    /// of energy.
    Play { amount: u8 },
    /// Lets the pet rest: raises its energy by `amount`.
    Rest { amount: u8 },
    /// Hands the pet to a new owner. `new_owner` is the verdict of address
    /// validation: the validated account, or the validator's reason for
    /// refusing the address.
    Transfer { new_owner: Result<AccountId, String> },
}

impl Clone for ExecuteMsg {
    fn clone(&self) -> (copy: ExecuteMsg)
        ensures
            copy == *self,
    {
        match self {
            ExecuteMsg::SetPassword { password } => ExecuteMsg::SetPassword {
                password: password.clone(),
            },
            ExecuteMsg::Feed { amount } => ExecuteMsg::Feed { amount: *amount },
            ExecuteMsg::Play { amount } => ExecuteMsg::Play { amount: *amount },
            ExecuteMsg::Rest { amount } => ExecuteMsg::Rest { amount: *amount },
            ExecuteMsg::Transfer { new_owner } => ExecuteMsg::Transfer {
                new_owner: match new_owner {
                    Ok(account) => Ok(account.clone()),
                    Err(reason) => Err(reason.clone()),
                },
            },
        }
    }
}

/// A question about the pet. Each presents the password.
#[derive(Debug, PartialEq, Eq)]
pub enum QueryMsg {
    /// Whether the pet is hungry: its hunger is 7 or more.
    IsHungry { password: String },
    /// The pet's name and levels.
    GetStatus { password: String },
}

impl Clone for QueryMsg {
    fn clone(&self) -> (copy: QueryMsg)
        ensures
            copy == *self,
    {
        match self {
            QueryMsg::IsHungry { password } => QueryMsg::IsHungry { password: password.clone() },
            QueryMsg::GetStatus { password } => QueryMsg::GetStatus { password: password.clone() },
        }
    }
}

/// The answer to a question.
#[derive(Debug, PartialEq, Eq)]
pub enum QueryAnswer {
    IsHungry { is_hungry: bool },
    GetStatus { name: String, hunger_level: u8, happiness_level: u8, energy_level: u8 },
}

} // verus!
