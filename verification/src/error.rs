//! The ways in which an instruction fails.

use vstd::prelude::*;
use anchor_lang::prelude::ProgramError;

verus! {

/// Why the rules of governance refuse an instruction. A refused instruction
/// changes nothing.
#[derive(Clone, Copy, Debug, PartialEq, Eq, Structural)]
pub enum GovernanceError {
    /// An addition would exceed the width of its integer.
    MathOverflow,
    /// A basis-point value lies above 10000.
    InvalidBps,
    /// The clock is outside the proposal's voting window.
    VotingClosed,
    /// The voting window has not ended yet.
    VotingStillOpen,
    /// A vote carries no weight.
    ZeroWeight,
    /// Too few votes were cast for the result to count.
    NoQuorum,
    /// The proposal has not been approved.
    NotApproved,
    /// The proposal has already been executed.
    AlreadyExecuted,
    /// The execution ticket has already been consumed.
    AlreadyConsumed,
}

/// Why an instruction that reads the clock did not apply.
#[derive(Debug, PartialEq, Eq)]
pub enum InstructionError {
    /// The rules of governance refuse the instruction.
    Rejected(GovernanceError),
    /// The runtime did not report the clock.
    Clock(ProgramError),
}

/// Why the store did not carry out an instruction. The store is then as it
/// was.
#[derive(Clone, Copy, Debug, PartialEq, Eq, Structural)]
pub enum LedgerError {
    /// The rules of governance refuse the instruction.
    Rejected(GovernanceError),
    /// No address can be derived from the keys of a record.
    NoAddress,
    /// A record that the instruction reads is not in the store.
    AccountMissing,
    /// A record that the instruction reads names another parent than the
    /// record it is read under.
    WrongParent,
    /// The record to create exists already.
    AccountInUse,
}

} // verus!
