//! A virtual pet kept by one owner: it grows hungry and bored as blocks go
//! by, and is fed, played with and rested by its owner.

pub mod contract;
pub mod error;
pub mod laws;
pub mod msg;
pub mod state;
