//! The auction: lifecycle, bid ledger, settlement engine and the laws that
//! hold of every run.

pub mod calls;
pub mod engine;
pub mod error;
pub mod laws;
pub mod ledger;
pub mod lifecycle;
