//! The six instructions as transitions on loaded records.
//!
//! Each instruction has a spec function that gives its outcome: the records
//! after the call, or the error that refuses it. The executable function
//! applies that outcome to the records it was handed and leaves them as they
//! were when the instruction is refused.
//!
//! Three instructions go by the clock. Each of them comes twice: `_at` takes
//! the clock value as an argument; the other reads the current slot from the
//! host runtime and then does what its `_at` counterpart does at that slot.
//! Nothing is known of the slot that the runtime reports, so the contract of
//! the latter says what holds for whichever slot it was.
//!
//! An instruction that creates a record asks that the place for it in its
//! accounts is empty: whether a record exists already is for the store to
//! know.

use vstd::prelude::*;
use crate::accounts::{
    CastVote, ConsumeExecutionTicket, CreateExecutionTicket, CreateProposal, FinalizeProposal,
    InitializeGovernance,
};
use crate::address::Address;
use crate::clock::current_slot;
use crate::error::{GovernanceError, InstructionError};
use crate::state::{ExecutionTicket, GovernanceConfig, Proposal, VoteRecord, MAX_BPS};

verus! {

/// The outcome of creating the config of `vault`.
pub open spec fn governance_initialized(
    authority: Address,
    vault: Address,
    bump: u8,
    quorum_bps: u16,
    pass_threshold_bps: u16,
    voting_period_slots: u64,
) -> Result<GovernanceConfig, GovernanceError> {
    if quorum_bps > MAX_BPS || pass_threshold_bps > MAX_BPS {
        Err(GovernanceError::InvalidBps)
    } else {
        Ok(
            GovernanceConfig {
                authority,
                vault,
                quorum_bps,
                pass_threshold_bps,
                voting_period_slots,
                bump,
                next_proposal_index: 0,
            },
        )
    }
}

/// What `initialize_governance` makes of the records in `accounts` and what it
/// returns.
pub open spec fn initialize_governance_result(
    accounts: InitializeGovernance,
    quorum_bps: u16,
    pass_threshold_bps: u16,
    voting_period_slots: u64,
) -> (InitializeGovernance, Result<(), GovernanceError>) {
    match governance_initialized(
        accounts.authority,
        accounts.vault,
        accounts.bump,
        quorum_bps,
        pass_threshold_bps,
        voting_period_slots,
    ) {
        Ok(config) => (
            InitializeGovernance { governance_config: Some(config), ..accounts },
            Ok(()),
        ),
        Err(e) => (accounts, Err(e)),
    }
}

/// Creates the config of a vault, with the caller as its authority and the
/// proposal counter at zero. The config it creates has valid thresholds.
pub fn initialize_governance(
    accounts: &mut InitializeGovernance,
    quorum_bps: u16,
    pass_threshold_bps: u16,
    voting_period_slots: u64,
) -> (res: Result<(), GovernanceError>)
    requires
        old(accounts).governance_config is None,
    ensures
        (*final(accounts), res) == initialize_governance_result(
            *old(accounts),
            quorum_bps,
            pass_threshold_bps,
            voting_period_slots,
        ),
        res is Ok ==> final(accounts).governance_config->Some_0.wf(),
{
    if quorum_bps > MAX_BPS {
        return Err(GovernanceError::InvalidBps);
    }
    if pass_threshold_bps > MAX_BPS {
        return Err(GovernanceError::InvalidBps);
    }
    accounts.governance_config = Some(
        GovernanceConfig {
            authority: accounts.authority,
            vault: accounts.vault,
            quorum_bps,
            pass_threshold_bps,
            voting_period_slots,
            bump: accounts.bump,
            next_proposal_index: 0,
        },
    );
    Ok(())
}

/// The outcome of creating a proposal at `slot`: the config with its counter
/// advanced by one, and the new proposal, which carries the counter's old
/// value as its index and has no votes yet.
pub open spec fn proposal_created(
    config: GovernanceConfig,
    config_key: Address,
    creator: Address,
    bump: u8,
    slot: u64,
    strategy_hash: [u8; 32],
    metadata_uri: [u8; 96],
) -> Result<(GovernanceConfig, Proposal), GovernanceError> {
    if config.next_proposal_index + 1 > u64::MAX || slot + config.voting_period_slots > u64::MAX {
        Err(GovernanceError::MathOverflow)
    } else {
        Ok(
            (
                GovernanceConfig {
                    next_proposal_index: (config.next_proposal_index + 1) as u64,
                    ..config
                },
                Proposal {
                    governance: config_key,
                    index: config.next_proposal_index,
                    creator,
                    strategy_hash,
                    metadata_uri,
                    yes_votes: 0,
                    no_votes: 0,
                    start_slot: slot,
                    end_slot: (slot + config.voting_period_slots) as u64,
                    executed: false,
                    approved: false,
                    bump,
                },
            ),
        )
    }
}

/// What `create_proposal_at` makes of the records in `accounts` and what it
/// returns.
pub open spec fn create_proposal_result(
    accounts: CreateProposal,
    slot: u64,
    strategy_hash: [u8; 32],
    metadata_uri: [u8; 96],
) -> (CreateProposal, Result<(), GovernanceError>) {
    match proposal_created(
        accounts.governance_config,
        accounts.governance_config_key,
        accounts.creator,
        accounts.bump,
        slot,
        strategy_hash,
        metadata_uri,
    ) {
        Ok((config, proposal)) => (
            CreateProposal { governance_config: config, proposal: Some(proposal), ..accounts },
            Ok(()),
        ),
        Err(e) => (accounts, Err(e)),
    }
}

/// Creates a proposal at clock value `slot`. Anyone may create one.
pub fn create_proposal_at(
    accounts: &mut CreateProposal,
    slot: u64,
    strategy_hash: [u8; 32],
    metadata_uri: [u8; 96],
) -> (res: Result<(), GovernanceError>)
    requires
        old(accounts).proposal is None,
    ensures
        (*final(accounts), res) == create_proposal_result(
            *old(accounts),
            slot,
            strategy_hash,
            metadata_uri,
        ),
{
    let index: u64 = accounts.governance_config.next_proposal_index;
    let next_index: u64 = match index.checked_add(1) {
        Some(next) => next,
        None => {
            return Err(GovernanceError::MathOverflow);
        },
    };
    let end_slot: u64 = match slot.checked_add(accounts.governance_config.voting_period_slots) {
        Some(end) => end,
        None => {
            return Err(GovernanceError::MathOverflow);
        },
    };
    accounts.governance_config.next_proposal_index = next_index;
    accounts.proposal = Some(
        Proposal {
            governance: accounts.governance_config_key,
            index,
            creator: accounts.creator,
            strategy_hash,
            metadata_uri,
            yes_votes: 0,
            no_votes: 0,
            start_slot: slot,
            end_slot,
            executed: false,
            approved: false,
            bump: accounts.bump,
        },
    );
    Ok(())
}

/// Creates a proposal at the current slot. Without a clock nothing changes.
pub fn create_proposal(
    accounts: &mut CreateProposal,
    strategy_hash: [u8; 32],
    metadata_uri: [u8; 96],
) -> (res: Result<(), InstructionError>)
    requires
        old(accounts).proposal is None,
    ensures
        match res {
            Ok(()) => exists|slot: u64| #[trigger]
                create_proposal_result(*old(accounts), slot, strategy_hash, metadata_uri) == (
                    *final(accounts),
                    Ok::<(), GovernanceError>(()),
                ),
            Err(InstructionError::Rejected(e)) => exists|slot: u64| #[trigger]
                create_proposal_result(*old(accounts), slot, strategy_hash, metadata_uri) == (
                    *final(accounts),
                    Err::<(), GovernanceError>(e),
                ),
            Err(InstructionError::Clock(_)) => *final(accounts) == *old(accounts),
        },
{
    match current_slot() {
        Err(e) => Err(InstructionError::Clock(e)),
        Ok(slot) => match create_proposal_at(accounts, slot, strategy_hash, metadata_uri) {
            Ok(()) => Ok(()),
            Err(e) => Err(InstructionError::Rejected(e)),
        },
    }
}

/// The outcome of a vote of `weight` by `voter` at `slot`: the proposal with
/// the weight added to the chosen tally and the record of the vote.
pub open spec fn vote_cast(
    proposal: Proposal,
    proposal_key: Address,
    voter: Address,
    bump: u8,
    slot: u64,
    support_yes: bool,
    weight: u64,
) -> Result<(Proposal, VoteRecord), GovernanceError> {
    let record = VoteRecord { proposal: proposal_key, voter, support: support_yes, weight, bump };
    if weight == 0 {
        Err(GovernanceError::ZeroWeight)
    } else if !proposal.voting_open(slot) {
        Err(GovernanceError::VotingClosed)
    } else if support_yes {
        if proposal.yes_votes + weight > u64::MAX {
            Err(GovernanceError::MathOverflow)
        } else {
            Ok((Proposal { yes_votes: (proposal.yes_votes + weight) as u64, ..proposal }, record))
        }
    } else {
        if proposal.no_votes + weight > u64::MAX {
            Err(GovernanceError::MathOverflow)
        } else {
            Ok((Proposal { no_votes: (proposal.no_votes + weight) as u64, ..proposal }, record))
        }
    }
}

/// What `cast_vote_at` makes of the records in `accounts` and what it returns.
pub open spec fn cast_vote_result(
    accounts: CastVote,
    slot: u64,
    support_yes: bool,
    weight: u64,
) -> (CastVote, Result<(), GovernanceError>) {
    match vote_cast(
        accounts.proposal,
        accounts.proposal_key,
        accounts.voter,
        accounts.bump,
        slot,
        support_yes,
        weight,
    ) {
        Ok((proposal, record)) => (
            CastVote { proposal, vote_record: Some(record), ..accounts },
            Ok(()),
        ),
        Err(e) => (accounts, Err(e)),
    }
}

/// Casts a vote at clock value `slot`.
pub fn cast_vote_at(
    accounts: &mut CastVote,
    slot: u64,
    support_yes: bool,
    weight: u64,
) -> (res: Result<(), GovernanceError>)
    requires
        old(accounts).vote_record is None,
    ensures
        (*final(accounts), res) == cast_vote_result(*old(accounts), slot, support_yes, weight),
{
    if weight == 0 {
        return Err(GovernanceError::ZeroWeight);
    }
    if slot < accounts.proposal.start_slot || slot > accounts.proposal.end_slot {
        return Err(GovernanceError::VotingClosed);
    }
    let tally: u64 = if support_yes {
        accounts.proposal.yes_votes
    } else {
        accounts.proposal.no_votes
    };
    let sum: u64 = match tally.checked_add(weight) {
        Some(sum) => sum,
        None => {
            return Err(GovernanceError::MathOverflow);
        },
    };
    accounts.vote_record = Some(
        VoteRecord {
            proposal: accounts.proposal_key,
            voter: accounts.voter,
            support: support_yes,
            weight,
            bump: accounts.bump,
        },
    );
    if support_yes {
        accounts.proposal.yes_votes = sum;
    } else {
        accounts.proposal.no_votes = sum;
    }
    Ok(())
}

/// Casts a vote at the current slot. A vote without weight is refused before
/// the clock is read. Without a clock nothing changes.
pub fn cast_vote(accounts: &mut CastVote, support_yes: bool, weight: u64) -> (res: Result<
    (),
    InstructionError,
>)
    requires
        old(accounts).vote_record is None,
    ensures
        weight == 0 ==> res == Err::<(), InstructionError>(
            InstructionError::Rejected(GovernanceError::ZeroWeight),
        ) && *final(accounts) == *old(accounts),
        match res {
            Ok(()) => exists|slot: u64| #[trigger]
                cast_vote_result(*old(accounts), slot, support_yes, weight) == (
                    *final(accounts),
                    Ok::<(), GovernanceError>(()),
                ),
            Err(InstructionError::Rejected(e)) => exists|slot: u64| #[trigger]
                cast_vote_result(*old(accounts), slot, support_yes, weight) == (
                    *final(accounts),
                    Err::<(), GovernanceError>(e),
                ),
            Err(InstructionError::Clock(_)) => weight > 0 && *final(accounts) == *old(accounts),
        },
{
    if weight == 0 {
        assert(cast_vote_result(*accounts, 0, support_yes, weight) == (
            *accounts,
            Err::<(), GovernanceError>(GovernanceError::ZeroWeight),
        ));
        return Err(InstructionError::Rejected(GovernanceError::ZeroWeight));
    }
    match current_slot() {
        Err(e) => Err(InstructionError::Clock(e)),
        Ok(slot) => match cast_vote_at(accounts, slot, support_yes, weight) {
            Ok(()) => Ok(()),
            Err(e) => Err(InstructionError::Rejected(e)),
        },
    }
}

/// The votes that a quorum of `quorum_bps` asks for when `total_voting_power`
/// votes exist: that share of them, rounded down.
pub open spec fn quorum_votes(total_voting_power: u64, quorum_bps: u16) -> int {
    (total_voting_power * quorum_bps) / 10_000
}

/// The share of yes among `yes_votes + no_votes` votes, in basis points,
/// rounded down. Meant for at least one vote.
pub open spec fn yes_ratio_bps(yes_votes: u64, no_votes: u64) -> int {
    (yes_votes * 10_000) / (yes_votes + no_votes)
}

/// The outcome of finalizing `proposal` at `slot` under `config`.
///
/// A proposal on which nobody voted never reaches quorum, whatever the quorum
/// is: of zero votes no share is yes.
pub open spec fn proposal_finalized(
    config: GovernanceConfig,
    proposal: Proposal,
    slot: u64,
    total_voting_power: u64,
) -> Result<Proposal, GovernanceError> {
    if !proposal.voting_ended(slot) {
        Err(GovernanceError::VotingStillOpen)
    } else if proposal.total_votes() > u64::MAX {
        Err(GovernanceError::MathOverflow)
    } else if proposal.total_votes() < quorum_votes(total_voting_power, config.quorum_bps)
        || proposal.total_votes() == 0 {
        Err(GovernanceError::NoQuorum)
    } else {
        Ok(
            Proposal {
                approved: yes_ratio_bps(proposal.yes_votes, proposal.no_votes)
                    >= config.pass_threshold_bps,
                ..proposal
            },
        )
    }
}

/// What `finalize_proposal_at` makes of the records in `accounts` and what it
/// returns.
pub open spec fn finalize_proposal_result(
    accounts: FinalizeProposal,
    slot: u64,
    total_voting_power: u64,
) -> (FinalizeProposal, Result<(), GovernanceError>) {
    match proposal_finalized(
        accounts.governance_config,
        accounts.proposal,
        slot,
        total_voting_power,
    ) {
        Ok(proposal) => (FinalizeProposal { proposal, ..accounts }, Ok(())),
        Err(e) => (accounts, Err(e)),
    }
}

/// Decides a proposal at clock value `slot`, with the vault's total voting
/// power as the caller states it.
pub fn finalize_proposal_at(
    accounts: &mut FinalizeProposal,
    slot: u64,
    total_voting_power: u64,
) -> (res: Result<(), GovernanceError>)
    ensures
        (*final(accounts), res) == finalize_proposal_result(
            *old(accounts),
            slot,
            total_voting_power,
        ),
{
    let yes_votes: u64 = accounts.proposal.yes_votes;
    let no_votes: u64 = accounts.proposal.no_votes;
    if slot <= accounts.proposal.end_slot {
        return Err(GovernanceError::VotingStillOpen);
    }
    let total_votes: u64 = match yes_votes.checked_add(no_votes) {
        Some(total) => total,
        None => {
            return Err(GovernanceError::MathOverflow);
        },
    };
    let power: u128 = total_voting_power as u128;
    let quorum_bps: u128 = accounts.governance_config.quorum_bps as u128;
    assert(power * quorum_bps <= u128::MAX) by (nonlinear_arith)
        requires
            power <= u64::MAX,
            quorum_bps <= u16::MAX,
    ;
    let quorum: u128 = power * quorum_bps / 10_000u128;
    if (total_votes as u128) < quorum || total_votes == 0 {
        return Err(GovernanceError::NoQuorum);
    }
    let ratio_bps: u128 = (yes_votes as u128) * 10_000u128 / (total_votes as u128);
    accounts.proposal.approved = ratio_bps >= accounts.governance_config.pass_threshold_bps as u128;
    Ok(())
}

/// Decides a proposal at the current slot. Without a clock nothing changes.
pub fn finalize_proposal(accounts: &mut FinalizeProposal, total_voting_power: u64) -> (res: Result<
    (),
    InstructionError,
>)
    ensures
        match res {
            Ok(()) => exists|slot: u64| #[trigger]
                finalize_proposal_result(*old(accounts), slot, total_voting_power) == (
                    *final(accounts),
                    Ok::<(), GovernanceError>(()),
                ),
            Err(InstructionError::Rejected(e)) => exists|slot: u64| #[trigger]
                finalize_proposal_result(*old(accounts), slot, total_voting_power) == (
                    *final(accounts),
                    Err::<(), GovernanceError>(e),
                ),
            Err(InstructionError::Clock(_)) => *final(accounts) == *old(accounts),
        },
{
    match current_slot() {
        Err(e) => Err(InstructionError::Clock(e)),
        Ok(slot) => match finalize_proposal_at(accounts, slot, total_voting_power) {
            Ok(()) => Ok(()),
            Err(e) => Err(InstructionError::Rejected(e)),
        },
    }
}

/// The outcome of minting the execution ticket of `proposal`.
pub open spec fn ticket_created(
    config: GovernanceConfig,
    config_key: Address,
    proposal: Proposal,
    proposal_key: Address,
    creator: Address,
    bump: u8,
    execution_hash: [u8; 32],
) -> Result<ExecutionTicket, GovernanceError> {
    if !proposal.approved {
        Err(GovernanceError::NotApproved)
    } else if proposal.executed {
        Err(GovernanceError::AlreadyExecuted)
    } else {
        Ok(
            ExecutionTicket {
                proposal: proposal_key,
                governance: config_key,
                vault: config.vault,
                creator,
                execution_hash,
                consumed: false,
                bump,
            },
        )
    }
}

/// What `create_execution_ticket` makes of the records in `accounts` and what it
/// returns.
pub open spec fn create_execution_ticket_result(
    accounts: CreateExecutionTicket,
    execution_hash: [u8; 32],
) -> (CreateExecutionTicket, Result<(), GovernanceError>) {
    match ticket_created(
        accounts.governance_config,
        accounts.governance_config_key,
        accounts.proposal,
        accounts.proposal_key,
        accounts.creator,
        accounts.bump,
        execution_hash,
    ) {
        Ok(ticket) => (
            CreateExecutionTicket { execution_ticket: Some(ticket), ..accounts },
            Ok(()),
        ),
        Err(e) => (accounts, Err(e)),
    }
}

/// Mints the execution ticket of an approved proposal that has not been
/// executed. The proposal itself stays as it is.
pub fn create_execution_ticket(
    accounts: &mut CreateExecutionTicket,
    execution_hash: [u8; 32],
) -> (res: Result<(), GovernanceError>)
    requires
        old(accounts).execution_ticket is None,
    ensures
        (*final(accounts), res) == create_execution_ticket_result(*old(accounts), execution_hash),
{
    if !accounts.proposal.approved {
        return Err(GovernanceError::NotApproved);
    }
    if accounts.proposal.executed {
        return Err(GovernanceError::AlreadyExecuted);
    }
    accounts.execution_ticket = Some(
        ExecutionTicket {
            proposal: accounts.proposal_key,
            governance: accounts.governance_config_key,
            vault: accounts.governance_config.vault,
            creator: accounts.creator,
            execution_hash,
            consumed: false,
            bump: accounts.bump,
        },
    );
    Ok(())
}

/// The outcome of consuming `ticket`: ticket and proposal are marked together.
pub open spec fn ticket_consumed(proposal: Proposal, ticket: ExecutionTicket) -> Result<
    (Proposal, ExecutionTicket),
    GovernanceError,
> {
    if ticket.consumed {
        Err(GovernanceError::AlreadyConsumed)
    } else if !proposal.approved {
        Err(GovernanceError::NotApproved)
    } else {
        Ok((Proposal { executed: true, ..proposal }, ExecutionTicket { consumed: true, ..ticket }))
    }
}

/// What `consume_execution_ticket` makes of the records in `accounts` and what it
/// returns.
pub open spec fn consume_execution_ticket_result(accounts: ConsumeExecutionTicket) -> (
    ConsumeExecutionTicket,
    Result<(), GovernanceError>,
) {
    match ticket_consumed(accounts.proposal, accounts.execution_ticket) {
        Ok((proposal, ticket)) => (
            ConsumeExecutionTicket { proposal, execution_ticket: ticket, ..accounts },
            Ok(()),
        ),
        Err(e) => (accounts, Err(e)),
    }
}

/// Consumes an execution ticket and marks its proposal as executed.
pub fn consume_execution_ticket(accounts: &mut ConsumeExecutionTicket) -> (res: Result<
    (),
    GovernanceError,
>)
    ensures
        (*final(accounts), res) == consume_execution_ticket_result(*old(accounts)),
{
    if accounts.execution_ticket.consumed {
        return Err(GovernanceError::AlreadyConsumed);
    }
    if !accounts.proposal.approved {
        return Err(GovernanceError::NotApproved);
    }
    accounts.execution_ticket.consumed = true;
    accounts.proposal.executed = true;
    Ok(())
}

} // verus!
