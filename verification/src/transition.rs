//! What each instruction does to a store of records, as mathematics.
//!
//! A store maps addresses to records. An instruction names its records by
//! their keys: a vault for a config, a vault and an index for a proposal, and
//! a voter beside them for a vote. Carrying it out takes two steps. The
//! first resolves the keys to addresses and needs the store only to read the
//! counter of a config. The second works on addresses alone: it reads the
//! records, applies the rules of governance, and writes. It reads a proposal
//! only under the config that the proposal names, and a ticket only under
//! the proposal that the ticket names.
//!
//! One vote per voter and one ticket per proposal rest on both steps: the
//! second keeps one record per address, and the first gives one voter on one
//! proposal, and one proposal, always the same address.
//!
//! A config, a proposal or a vote is refused for its address before the
//! rules are asked. A ticket is refused by the rules first: who asks for the
//! ticket of an executed proposal hears that it is executed, and hears of
//! the address only where no rule refuses.

use vstd::prelude::*;
use crate::address::Address;
use crate::error::LedgerError;
use crate::instructions::{
    governance_initialized, proposal_created, proposal_finalized, ticket_consumed, ticket_created,
    vote_cast,
};
use crate::state::{ExecutionTicket, GovernanceConfig, Proposal, VoteRecord};

verus! {

/// A stored record of one of the four kinds.
#[derive(Clone, Copy, Debug, PartialEq, Eq)]
pub enum Record {
    Config(GovernanceConfig),
    Proposal(Proposal),
    Vote(VoteRecord),
    Ticket(ExecutionTicket),
}

/// The store as a mathematical value: the program that owns the records and
/// the record at each address that is taken.
pub struct State {
    pub program_id: Address,
    pub accounts: Map<Address, Record>,
}

impl State {
    /// Whether some record lives at `key`.
    pub open spec fn occupied(self, key: Address) -> bool {
        self.accounts.contains_key(key)
    }

    /// The config stored at `key`, if a config is stored there.
    pub open spec fn config_at(self, key: Address) -> Option<GovernanceConfig> {
        if self.accounts.contains_key(key) {
            match self.accounts[key] {
                Record::Config(config) => Some(config),
                _ => None,
            }
        } else {
            None
        }
    }

    /// The proposal stored at `key`, if a proposal is stored there.
    pub open spec fn proposal_at(self, key: Address) -> Option<Proposal> {
        if self.accounts.contains_key(key) {
            match self.accounts[key] {
                Record::Proposal(proposal) => Some(proposal),
                _ => None,
            }
        } else {
            None
        }
    }

    /// The vote record stored at `key`, if a vote record is stored there.
    pub open spec fn vote_at(self, key: Address) -> Option<VoteRecord> {
        if self.accounts.contains_key(key) {
            match self.accounts[key] {
                Record::Vote(vote) => Some(vote),
                _ => None,
            }
        } else {
            None
        }
    }

    /// The ticket stored at `key`, if a ticket is stored there.
    pub open spec fn ticket_at(self, key: Address) -> Option<ExecutionTicket> {
        if self.accounts.contains_key(key) {
            match self.accounts[key] {
                Record::Ticket(ticket) => Some(ticket),
                _ => None,
            }
        } else {
            None
        }
    }

    /// The store with `record` written at `key`.
    pub open spec fn with(self, key: Address, record: Record) -> State {
        State { accounts: self.accounts.insert(key, record), ..self }
    }
}

/// A request to the store, its records named by their keys.
#[derive(Clone, Copy, Debug, PartialEq, Eq)]
pub enum Instruction {
    InitializeGovernance {
        authority: Address,
        vault: Address,
        quorum_bps: u16,
        pass_threshold_bps: u16,
        voting_period_slots: u64,
    },
    CreateProposal {
        vault: Address,
        creator: Address,
        strategy_hash: [u8; 32],
        metadata_uri: [u8; 96],
    },
    CastVote { vault: Address, index: u64, voter: Address, support_yes: bool, weight: u64 },
    FinalizeProposal { vault: Address, index: u64, total_voting_power: u64 },
    CreateExecutionTicket {
        vault: Address,
        index: u64,
        creator: Address,
        execution_hash: [u8; 32],
    },
    ConsumeExecutionTicket { vault: Address, index: u64, executor: Address },
}

/// A request to the store, its records named by their addresses. `bump` is
/// the bump seed of the record to create. The addresses need not follow from
/// any keys: those that [`State::resolve`] gives do.
#[derive(Clone, Copy, Debug, PartialEq, Eq)]
pub enum Resolved {
    InitializeGovernance {
        governance_config: Address,
        bump: u8,
        authority: Address,
        vault: Address,
        quorum_bps: u16,
        pass_threshold_bps: u16,
        voting_period_slots: u64,
    },
    CreateProposal {
        governance_config: Address,
        proposal: Address,
        bump: u8,
        creator: Address,
        strategy_hash: [u8; 32],
        metadata_uri: [u8; 96],
    },
    CastVote {
        governance_config: Address,
        proposal: Address,
        vote_record: Address,
        bump: u8,
        voter: Address,
        support_yes: bool,
        weight: u64,
    },
    FinalizeProposal { governance_config: Address, proposal: Address, total_voting_power: u64 },
    CreateExecutionTicket {
        governance_config: Address,
        proposal: Address,
        execution_ticket: Address,
        bump: u8,
        creator: Address,
        execution_hash: [u8; 32],
    },
    ConsumeExecutionTicket {
        governance_config: Address,
        proposal: Address,
        execution_ticket: Address,
        executor: Address,
    },
}

/// A proposal found in the store, with its config and the address of each.
#[derive(Clone, Copy, Debug, PartialEq, Eq)]
pub struct Located {
    pub config_key: Address,
    pub config: GovernanceConfig,
    pub proposal_key: Address,
    pub proposal: Proposal,
}

/// The addresses of a proposal and of its config.
pub open spec fn proposal_keys(program_id: Address, vault: Address, index: u64) -> Result<
    (Address, Address),
    LedgerError,
> {
    match GovernanceConfig::address(program_id, vault) {
        None => Err(LedgerError::NoAddress),
        Some((config_key, _)) => match Proposal::address(program_id, config_key, index) {
            None => Err(LedgerError::NoAddress),
            Some((proposal_key, _)) => Ok((config_key, proposal_key)),
        },
    }
}

impl State {
    /// The config of `vault` and its address.
    pub open spec fn find_config(self, vault: Address) -> Result<
        (Address, GovernanceConfig),
        LedgerError,
    > {
        match GovernanceConfig::address(self.program_id, vault) {
            None => Err(LedgerError::NoAddress),
            Some((config_key, _)) => match self.config_at(config_key) {
                None => Err(LedgerError::AccountMissing),
                Some(config) => Ok((config_key, config)),
            },
        }
    }

    /// Proposal `index` of `vault`, with its config.
    pub open spec fn locate(self, vault: Address, index: u64) -> Result<Located, LedgerError> {
        match proposal_keys(self.program_id, vault, index) {
            Err(e) => Err(e),
            Ok((config_key, proposal_key)) => match (
                self.config_at(config_key),
                self.proposal_at(proposal_key),
            ) {
                (Some(config), Some(proposal)) => Ok(
                    Located { config_key, config, proposal_key, proposal },
                ),
                _ => Err(LedgerError::AccountMissing),
            },
        }
    }

    /// The vote of `voter` on proposal `index` of `vault`.
    pub open spec fn find_vote(self, vault: Address, index: u64, voter: Address) -> Result<
        VoteRecord,
        LedgerError,
    > {
        match proposal_keys(self.program_id, vault, index) {
            Err(e) => Err(e),
            Ok((_, proposal_key)) => match VoteRecord::address(
                self.program_id,
                proposal_key,
                voter,
            ) {
                None => Err(LedgerError::NoAddress),
                Some((vote_key, _)) => match self.vote_at(vote_key) {
                    None => Err(LedgerError::AccountMissing),
                    Some(vote) => Ok(vote),
                },
            },
        }
    }

    /// The ticket of proposal `index` of `vault`.
    pub open spec fn find_ticket(self, vault: Address, index: u64) -> Result<
        ExecutionTicket,
        LedgerError,
    > {
        match proposal_keys(self.program_id, vault, index) {
            Err(e) => Err(e),
            Ok((_, proposal_key)) => match ExecutionTicket::address(
                self.program_id,
                proposal_key,
            ) {
                None => Err(LedgerError::NoAddress),
                Some((ticket_key, _)) => match self.ticket_at(ticket_key) {
                    None => Err(LedgerError::AccountMissing),
                    Some(ticket) => Ok(ticket),
                },
            },
        }
    }

    /// The addresses of the records that `instruction` names. A new proposal
    /// is addressed by the counter of its config, which must exist for that.
    pub open spec fn resolve(self, instruction: Instruction) -> Result<Resolved, LedgerError> {
        match instruction {
            Instruction::InitializeGovernance {
                authority,
                vault,
                quorum_bps,
                pass_threshold_bps,
                voting_period_slots,
            } => match GovernanceConfig::address(self.program_id, vault) {
                None => Err(LedgerError::NoAddress),
                Some((governance_config, bump)) => Ok(
                    Resolved::InitializeGovernance {
                        governance_config,
                        bump,
                        authority,
                        vault,
                        quorum_bps,
                        pass_threshold_bps,
                        voting_period_slots,
                    },
                ),
            },
            Instruction::CreateProposal {
                vault,
                creator,
                strategy_hash,
                metadata_uri,
            } => match self.find_config(vault) {
                Err(e) => Err(e),
                Ok((governance_config, config)) => match Proposal::address(
                    self.program_id,
                    governance_config,
                    config.next_proposal_index,
                ) {
                    None => Err(LedgerError::NoAddress),
                    Some((proposal, bump)) => Ok(
                        Resolved::CreateProposal {
                            governance_config,
                            proposal,
                            bump,
                            creator,
                            strategy_hash,
                            metadata_uri,
                        },
                    ),
                },
            },
            Instruction::CastVote {
                vault,
                index,
                voter,
                support_yes,
                weight,
            } => match proposal_keys(self.program_id, vault, index) {
                Err(e) => Err(e),
                Ok((governance_config, proposal)) => match VoteRecord::address(
                    self.program_id,
                    proposal,
                    voter,
                ) {
                    None => Err(LedgerError::NoAddress),
                    Some((vote_record, bump)) => Ok(
                        Resolved::CastVote {
                            governance_config,
                            proposal,
                            vote_record,
                            bump,
                            voter,
                            support_yes,
                            weight,
                        },
                    ),
                },
            },
            Instruction::FinalizeProposal {
                vault,
                index,
                total_voting_power,
            } => match proposal_keys(self.program_id, vault, index) {
                Err(e) => Err(e),
                Ok((governance_config, proposal)) => Ok(
                    Resolved::FinalizeProposal { governance_config, proposal, total_voting_power },
                ),
            },
            Instruction::CreateExecutionTicket {
                vault,
                index,
                creator,
                execution_hash,
            } => match proposal_keys(self.program_id, vault, index) {
                Err(e) => Err(e),
                Ok((governance_config, proposal)) => match ExecutionTicket::address(
                    self.program_id,
                    proposal,
                ) {
                    None => Err(LedgerError::NoAddress),
                    Some((execution_ticket, bump)) => Ok(
                        Resolved::CreateExecutionTicket {
                            governance_config,
                            proposal,
                            execution_ticket,
                            bump,
                            creator,
                            execution_hash,
                        },
                    ),
                },
            },
            Instruction::ConsumeExecutionTicket {
                vault,
                index,
                executor,
            } => match proposal_keys(self.program_id, vault, index) {
                Err(e) => Err(e),
                Ok((governance_config, proposal)) => match ExecutionTicket::address(
                    self.program_id,
                    proposal,
                ) {
                    None => Err(LedgerError::NoAddress),
                    Some((execution_ticket, _)) => Ok(
                        Resolved::ConsumeExecutionTicket {
                            governance_config,
                            proposal,
                            execution_ticket,
                            executor,
                        },
                    ),
                },
            },
        }
    }

    /// Creates a config at `governance_config`, unless the address is taken.
    pub open spec fn initialize_governance(
        self,
        governance_config: Address,
        bump: u8,
        authority: Address,
        vault: Address,
        quorum_bps: u16,
        pass_threshold_bps: u16,
        voting_period_slots: u64,
    ) -> Result<State, LedgerError> {
        if self.occupied(governance_config) {
            Err(LedgerError::AccountInUse)
        } else {
            match governance_initialized(
                authority,
                vault,
                bump,
                quorum_bps,
                pass_threshold_bps,
                voting_period_slots,
            ) {
                Err(e) => Err(LedgerError::Rejected(e)),
                Ok(config) => Ok(self.with(governance_config, Record::Config(config))),
            }
        }
    }

    /// Creates at `proposal` the next proposal of the config at
    /// `governance_config`, unless the address is taken.
    pub open spec fn create_proposal(
        self,
        slot: u64,
        governance_config: Address,
        proposal: Address,
        bump: u8,
        creator: Address,
        strategy_hash: [u8; 32],
        metadata_uri: [u8; 96],
    ) -> Result<State, LedgerError> {
        match self.config_at(governance_config) {
            None => Err(LedgerError::AccountMissing),
            Some(config) => if self.occupied(proposal) {
                Err(LedgerError::AccountInUse)
            } else {
                match proposal_created(
                    config,
                    governance_config,
                    creator,
                    bump,
                    slot,
                    strategy_hash,
                    metadata_uri,
                ) {
                    Err(e) => Err(LedgerError::Rejected(e)),
                    Ok((config, created)) => Ok(
                        self.with(governance_config, Record::Config(config)).with(
                            proposal,
                            Record::Proposal(created),
                        ),
                    ),
                }
            },
        }
    }

    /// Records at `vote_record` the vote of `voter` on the proposal at
    /// `proposal`, unless the address is taken.
    pub open spec fn cast_vote(
        self,
        slot: u64,
        governance_config: Address,
        proposal: Address,
        vote_record: Address,
        bump: u8,
        voter: Address,
        support_yes: bool,
        weight: u64,
    ) -> Result<State, LedgerError> {
        match (self.config_at(governance_config), self.proposal_at(proposal)) {
            (Some(_), Some(voted_on)) => if voted_on.governance != governance_config {
                Err(LedgerError::WrongParent)
            } else if self.occupied(vote_record) {
                Err(LedgerError::AccountInUse)
            } else {
                match vote_cast(voted_on, proposal, voter, bump, slot, support_yes, weight) {
                    Err(e) => Err(LedgerError::Rejected(e)),
                    Ok((voted_on, vote)) => Ok(
                        self.with(proposal, Record::Proposal(voted_on)).with(
                            vote_record,
                            Record::Vote(vote),
                        ),
                    ),
                }
            },
            _ => Err(LedgerError::AccountMissing),
        }
    }

    /// Decides the proposal at `proposal` under the config at
    /// `governance_config`.
    pub open spec fn finalize_proposal(
        self,
        slot: u64,
        governance_config: Address,
        proposal: Address,
        total_voting_power: u64,
    ) -> Result<State, LedgerError> {
        match (self.config_at(governance_config), self.proposal_at(proposal)) {
            (Some(config), Some(decided)) => if decided.governance != governance_config {
                Err(LedgerError::WrongParent)
            } else {
                match proposal_finalized(config, decided, slot, total_voting_power) {
                    Err(e) => Err(LedgerError::Rejected(e)),
                    Ok(decided) => Ok(self.with(proposal, Record::Proposal(decided))),
                }
            },
            _ => Err(LedgerError::AccountMissing),
        }
    }

    /// Mints at `execution_ticket` the ticket of the proposal at `proposal`.
    /// The rules are asked before the address: for a proposal that is not
    /// approved, or that is executed, the answer is the rule's, whether or
    /// not the address is taken.
    pub open spec fn create_execution_ticket(
        self,
        governance_config: Address,
        proposal: Address,
        execution_ticket: Address,
        bump: u8,
        creator: Address,
        execution_hash: [u8; 32],
    ) -> Result<State, LedgerError> {
        match (self.config_at(governance_config), self.proposal_at(proposal)) {
            (Some(config), Some(approved)) => if approved.governance != governance_config {
                Err(LedgerError::WrongParent)
            } else {
                match ticket_created(
                    config,
                    governance_config,
                    approved,
                    proposal,
                    creator,
                    bump,
                    execution_hash,
                ) {
                    Err(e) => Err(LedgerError::Rejected(e)),
                    Ok(ticket) => if self.occupied(execution_ticket) {
                        Err(LedgerError::AccountInUse)
                    } else {
                        Ok(self.with(execution_ticket, Record::Ticket(ticket)))
                    },
                }
            },
            _ => Err(LedgerError::AccountMissing),
        }
    }

    /// Consumes the ticket at `execution_ticket` for the proposal at
    /// `proposal`.
    pub open spec fn consume_execution_ticket(
        self,
        governance_config: Address,
        proposal: Address,
        execution_ticket: Address,
    ) -> Result<State, LedgerError> {
        match (
            self.config_at(governance_config),
            self.proposal_at(proposal),
            self.ticket_at(execution_ticket),
        ) {
            (Some(_), Some(approved), Some(ticket)) => if approved.governance
                != governance_config || ticket.proposal != proposal {
                Err(LedgerError::WrongParent)
            } else {
                match ticket_consumed(approved, ticket) {
                    Err(e) => Err(LedgerError::Rejected(e)),
                    Ok((executed, consumed)) => Ok(
                        self.with(proposal, Record::Proposal(executed)).with(
                            execution_ticket,
                            Record::Ticket(consumed),
                        ),
                    ),
                }
            },
            _ => Err(LedgerError::AccountMissing),
        }
    }

    /// The store after `resolved` at clock value `slot`, or why the store
    /// refuses it. The addresses are taken as they are: one record per
    /// address is all that holds of them here.
    pub open spec fn execute(self, slot: u64, resolved: Resolved) -> Result<State, LedgerError> {
        match resolved {
            Resolved::InitializeGovernance {
                governance_config,
                bump,
                authority,
                vault,
                quorum_bps,
                pass_threshold_bps,
                voting_period_slots,
            } => self.initialize_governance(
                governance_config,
                bump,
                authority,
                vault,
                quorum_bps,
                pass_threshold_bps,
                voting_period_slots,
            ),
            Resolved::CreateProposal {
                governance_config,
                proposal,
                bump,
                creator,
                strategy_hash,
                metadata_uri,
            } => self.create_proposal(
                slot,
                governance_config,
                proposal,
                bump,
                creator,
                strategy_hash,
                metadata_uri,
            ),
            Resolved::CastVote {
                governance_config,
                proposal,
                vote_record,
                bump,
                voter,
                support_yes,
                weight,
            } => self.cast_vote(
                slot,
                governance_config,
                proposal,
                vote_record,
                bump,
                voter,
                support_yes,
                weight,
            ),
            Resolved::FinalizeProposal {
                governance_config,
                proposal,
                total_voting_power,
            } => self.finalize_proposal(slot, governance_config, proposal, total_voting_power),
            Resolved::CreateExecutionTicket {
                governance_config,
                proposal,
                execution_ticket,
                bump,
                creator,
                execution_hash,
            } => self.create_execution_ticket(
                governance_config,
                proposal,
                execution_ticket,
                bump,
                creator,
                execution_hash,
            ),
            Resolved::ConsumeExecutionTicket {
                governance_config,
                proposal,
                execution_ticket,
                executor,
            } => self.consume_execution_ticket(governance_config, proposal, execution_ticket),
        }
    }
}

/// The store after `instruction` at clock value `slot`, or why the store
/// refuses it.
pub open spec fn apply(state: State, slot: u64, instruction: Instruction) -> Result<
    State,
    LedgerError,
> {
    match state.resolve(instruction) {
        Err(e) => Err(e),
        Ok(resolved) => state.execute(slot, resolved),
    }
}

/// An instruction and the clock value at which it is carried out.
#[derive(Clone, Copy, Debug, PartialEq, Eq)]
pub struct Step {
    pub slot: u64,
    pub instruction: Instruction,
}

/// The store after `step`: changed if the store accepts the step, as it was
/// if the store refuses it.
pub open spec fn after(state: State, step: Step) -> State {
    match apply(state, step.slot, step.instruction) {
        Ok(next) => next,
        Err(_) => state,
    }
}

/// What the store answers to `step`: nothing if it accepts the step, else
/// why it refuses it.
pub open spec fn outcome(state: State, step: Step) -> Result<(), LedgerError> {
    match apply(state, step.slot, step.instruction) {
        Ok(_) => Ok(()),
        Err(e) => Err(e),
    }
}

/// The store after all of `steps`, in order.
pub open spec fn run(state: State, steps: Seq<Step>) -> State
    decreases steps.len(),
{
    if steps.len() == 0 {
        state
    } else {
        after(run(state, steps.drop_last()), steps.last())
    }
}

} // verus!
