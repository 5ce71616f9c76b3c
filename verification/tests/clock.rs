use anchor_lang::prelude::ProgramError;
use governance::accounts::{CastVote, CreateProposal, FinalizeProposal};
use governance::address::Address;
use governance::error::{GovernanceError, InstructionError};
use governance::instructions::{cast_vote, create_proposal, finalize_proposal};
use governance::state::{GovernanceConfig, Proposal};

fn addr(tag: u8) -> Address {
    Address { bytes: [tag; 32] }
}

fn config() -> GovernanceConfig {
    GovernanceConfig {
        authority: addr(1),
        vault: addr(2),
        quorum_bps: 2000,
        pass_threshold_bps: 6000,
        voting_period_slots: 100,
        bump: 255,
        next_proposal_index: 0,
    }
}

fn proposal() -> Proposal {
    Proposal {
        governance: addr(3),
        index: 0,
        creator: addr(4),
        strategy_hash: [7; 32],
        metadata_uri: [8; 96],
        yes_votes: 700,
        no_votes: 300,
        start_slot: 0,
        end_slot: u64::MAX,
        executed: false,
        approved: false,
        bump: 254,
    }
}

// No runtime serves the clock to a test: each instruction reports that and
// leaves its records alone.

#[test]
fn create_proposal_without_a_clock_changes_nothing() {
    let mut ctx = CreateProposal {
        governance_config: config(),
        governance_config_key: addr(3),
        proposal: None,
        creator: addr(4),
        bump: 254,
    };
    let before = ctx;
    assert_eq!(
        create_proposal(&mut ctx, [7; 32], [8; 96]),
        Err(InstructionError::Clock(ProgramError::UnsupportedSysvar))
    );
    assert_eq!(ctx, before);
}

#[test]
fn cast_vote_without_a_clock_changes_nothing() {
    let mut ctx = CastVote {
        governance_config: config(),
        proposal: proposal(),
        proposal_key: addr(5),
        vote_record: None,
        voter: addr(6),
        bump: 253,
    };
    let before = ctx;
    assert_eq!(
        cast_vote(&mut ctx, true, 5),
        Err(InstructionError::Clock(ProgramError::UnsupportedSysvar))
    );
    assert_eq!(ctx, before);
}

#[test]
fn finalize_proposal_without_a_clock_changes_nothing() {
    let mut ctx = FinalizeProposal { governance_config: config(), proposal: proposal() };
    let before = ctx;
    assert_eq!(
        finalize_proposal(&mut ctx, 4000),
        Err(InstructionError::Clock(ProgramError::UnsupportedSysvar))
    );
    assert_eq!(ctx, before);
}

#[test]
fn cast_vote_without_weight_is_refused_for_its_weight_though_there_is_no_clock() {
    for support_yes in [true, false] {
        let mut ctx = CastVote {
            governance_config: config(),
            proposal: proposal(),
            proposal_key: addr(5),
            vote_record: None,
            voter: addr(6),
            bump: 253,
        };
        let before = ctx;
        assert_eq!(
            cast_vote(&mut ctx, support_yes, 0),
            Err(InstructionError::Rejected(GovernanceError::ZeroWeight))
        );
        assert_eq!(ctx, before);
    }
}
