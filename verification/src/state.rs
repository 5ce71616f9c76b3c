//! The four persistent records of a vault's governance.

use vstd::prelude::*;
use crate::address::Address;

verus! {

/// The largest basis-point value: 10000 bps is 100%.
pub const MAX_BPS: u16 = 10_000;

/// The policy of one vault and the counter that numbers its proposals.
#[derive(Clone, Copy, Debug, PartialEq, Eq)]
pub struct GovernanceConfig {
    /// Identity permitted to configure.
    pub authority: Address,
    /// The governed vault.
    pub vault: Address,
    /// Least share of the total voting power that must vote, in basis points.
    pub quorum_bps: u16,
    /// Least share of yes among the votes cast for approval, in basis points.
    pub pass_threshold_bps: u16,
    /// Length of every proposal's voting window, in slots.
    pub voting_period_slots: u64,
    /// Bump seed of this record's address.
    pub bump: u8,
    /// Index that the next proposal receives.
    pub next_proposal_index: u64,
}

impl GovernanceConfig {
    /// Size of the stored record in bytes, its 8-byte tag included.
    pub const LEN: usize = 8 + 32 + 32 + 2 + 2 + 8 + 1 + 8;

    /// Both thresholds are fractions between 0% and 100%.
    pub open spec fn wf(&self) -> bool {
        self.quorum_bps <= MAX_BPS && self.pass_threshold_bps <= MAX_BPS
    }
}

/// One proposal of a vault, with its tallies and its voting window.
#[derive(Clone, Copy, Debug, PartialEq, Eq)]
pub struct Proposal {
    /// Address of the config this proposal belongs to.
    pub governance: Address,
    /// Index assigned from the config's counter.
    pub index: u64,
    pub creator: Address,
    /// Fingerprint of the proposed strategy.
    pub strategy_hash: [u8; 32],
    /// Pointer to the proposal's description, zero-padded.
    pub metadata_uri: [u8; 96],
    pub yes_votes: u64,
    pub no_votes: u64,
    /// First slot of the voting window.
    pub start_slot: u64,
    /// Last slot of the voting window.
    pub end_slot: u64,
    pub executed: bool,
    pub approved: bool,
    /// Bump seed of this record's address.
    pub bump: u8,
}

impl Proposal {
    /// Size of the stored record in bytes, its 8-byte tag included.
    pub const LEN: usize = 8 + 32 + 8 + 32 + 32 + 96 + 8 + 8 + 8 + 8 + 1 + 1 + 1;

    /// Votes are accepted at `slot`.
    pub open spec fn voting_open(&self, slot: u64) -> bool {
        self.start_slot <= slot <= self.end_slot
    }

    /// The voting window lies before `slot`.
    pub open spec fn voting_ended(&self, slot: u64) -> bool {
        slot > self.end_slot
    }

    /// All votes cast so far.
    pub open spec fn total_votes(&self) -> int {
        self.yes_votes + self.no_votes
    }
}

/// The vote of one voter on one proposal.
#[derive(Clone, Copy, Debug, PartialEq, Eq)]
pub struct VoteRecord {
    pub proposal: Address,
    pub voter: Address,
    /// `true` for yes, `false` for no.
    pub support: bool,
    pub weight: u64,
    /// Bump seed of this record's address.
    pub bump: u8,
}

impl VoteRecord {
    /// Size of the stored record in bytes, its 8-byte tag included.
    pub const LEN: usize = 8 + 32 + 32 + 1 + 8 + 1;
}

/// The one-shot authorization that an approved proposal may be executed.
#[derive(Clone, Copy, Debug, PartialEq, Eq)]
pub struct ExecutionTicket {
    pub proposal: Address,
    pub governance: Address,
    pub vault: Address,
    pub creator: Address,
    /// Opaque payload for the executor.
    pub execution_hash: [u8; 32],
    pub consumed: bool,
    /// Bump seed of this record's address.
    pub bump: u8,
}

impl ExecutionTicket {
    /// Size of the stored record in bytes, its 8-byte tag included.
    pub const LEN: usize = 8 + 32 + 32 + 32 + 32 + 32 + 1 + 1;
}

} // verus!
