//! A user-owned counter whose account can migrate between a base ledger and
//! a rollup execution context.
//!
//! The library decodes instructions, validates the accounts an instruction
//! names, keeps the counter record, and decides which request is handed to
//! the ledger's allocation service or to the rollup-delegation service.

pub mod account;
pub mod address;
pub mod error;
pub mod instruction;
pub mod laws;
pub mod processor;
pub mod service;
pub mod state;
pub mod wire;
