//! A single-item ascending auction with escrowed bids and a secret that is
//! released to the verified winner, together with a small virtual pet whose
//! needs drift with the block height.

pub mod account;
pub mod auction;
pub mod host;
pub mod pet;
pub mod response;
