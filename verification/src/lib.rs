//! A visitor counter: who is calling, what the store holds for them,
//! and what the caller is told.

pub mod counter;
mod engine;
pub mod identity;
pub mod ledger;
pub mod reply;
pub mod statements;
pub mod store;
