//! Proposal lifecycle of a vault's governance: creation, time-boxed voting,
//! quorum and threshold finalization, and the single-use execution ticket that
//! hands an approved proposal to an off-chain executor.
//!
//! - [`state`] holds the four records, [`accounts`] the records that each
//!   instruction touches, and [`error`] the ways in which an instruction
//!   fails.
//! - [`instructions`] holds the six instructions as transitions on records.
//! - [`seeds`] derives the address of a record from its keys.
//! - [`transition`] says what an instruction does to a store of records,
//!   [`ledger`] is such a store, and [`laws`] holds what is true of every
//!   sequence of instructions.
//! - [`reporting`] holds the records of the reporting collaborator.

pub mod accounts;
pub mod address;
pub mod clock;
pub mod error;
pub mod instructions;
pub mod laws;
pub mod ledger;
pub mod reporting;
pub mod seeds;
pub mod state;
pub mod transition;
