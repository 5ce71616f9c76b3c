//! The records that each instruction reads and writes, as loaded values.
//!
//! A record that the instruction creates is `None` before the call, which
//! the instruction requires, and holds the new record after a successful
//! one.

use vstd::prelude::*;
use crate::address::Address;
use crate::state::{ExecutionTicket, GovernanceConfig, Proposal, VoteRecord};

verus! {

/// What `initialize_governance` touches.
#[derive(Clone, Copy, Debug, PartialEq, Eq)]
pub struct InitializeGovernance {
    /// The config to create.
    pub governance_config: Option<GovernanceConfig>,
    /// The vault to govern.
    pub vault: Address,
    /// The caller, who becomes the authority.
    pub authority: Address,
    /// Bump seed of the config's address.
    pub bump: u8,
}

/// What `create_proposal` touches.
#[derive(Clone, Copy, Debug, PartialEq, Eq)]
pub struct CreateProposal {
    pub governance_config: GovernanceConfig,
    /// Address of `governance_config`.
    pub governance_config_key: Address,
    /// The proposal to create.
    pub proposal: Option<Proposal>,
    pub creator: Address,
    /// Bump seed of the proposal's address.
    pub bump: u8,
}

/// What `cast_vote` touches.
#[derive(Clone, Copy, Debug, PartialEq, Eq)]
pub struct CastVote {
    pub governance_config: GovernanceConfig,
    pub proposal: Proposal,
    /// Address of `proposal`.
    pub proposal_key: Address,
    /// The vote record to create.
    pub vote_record: Option<VoteRecord>,
    pub voter: Address,
    /// Bump seed of the vote record's address.
    pub bump: u8,
}

/// What `finalize_proposal` touches.
#[derive(Clone, Copy, Debug, PartialEq, Eq)]
pub struct FinalizeProposal {
    pub governance_config: GovernanceConfig,
    pub proposal: Proposal,
}

/// What `create_execution_ticket` touches.
#[derive(Clone, Copy, Debug, PartialEq, Eq)]
pub struct CreateExecutionTicket {
    pub governance_config: GovernanceConfig,
    /// Address of `governance_config`.
    pub governance_config_key: Address,
    pub proposal: Proposal,
    /// Address of `proposal`.
    pub proposal_key: Address,
    /// The ticket to create.
    pub execution_ticket: Option<ExecutionTicket>,
    pub creator: Address,
    /// Bump seed of the ticket's address.
    pub bump: u8,
}

/// What `consume_execution_ticket` touches.
#[derive(Clone, Copy, Debug, PartialEq, Eq)]
pub struct ConsumeExecutionTicket {
    pub governance_config: GovernanceConfig,
    pub proposal: Proposal,
    pub execution_ticket: ExecutionTicket,
    /// The caller. Any identity may consume a ticket.
    pub executor: Address,
}

} // verus!
