//! What the host tells a call about its surroundings: the block it runs
//! in, who sent it, and the funds attached.

use vstd::prelude::*;
use crate::account::AccountId;

verus! {

/// An amount of one denomination.
#[derive(Debug, PartialEq, Eq)]
pub struct Coin {
    pub denom: String,
    pub amount: u128,
}

/// The block in which a call runs: its height and its time in seconds.
#[derive(Clone, Copy, Debug, PartialEq, Eq, Structural)]
pub struct BlockInfo {
    pub height: u64,
    pub time: u64,
}

/// The surroundings of a call.
#[derive(Clone, Copy, Debug, PartialEq, Eq, Structural)]
pub struct Env {
    pub block: BlockInfo,
}

/// The sender of a call and the funds attached to it.
#[derive(Debug, PartialEq, Eq)]
pub struct MessageInfo {
    pub sender: AccountId,
    pub funds: Vec<Coin>,
}

} // verus!
