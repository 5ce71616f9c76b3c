use governance::address::Address;
use governance::error::{GovernanceError, LedgerError};
use governance::ledger::Ledger;
use governance::seeds::find_address;
use governance::state::{ExecutionTicket, GovernanceConfig, Proposal, VoteRecord};
use governance::transition::{Instruction, Record, Resolved, Step};

fn addr(tag: u8) -> Address {
    Address { bytes: [tag; 32] }
}

fn program() -> Address {
    addr(42)
}

fn vault() -> Address {
    addr(2)
}

fn init(quorum_bps: u16, pass_threshold_bps: u16, voting_period_slots: u64) -> Instruction {
    Instruction::InitializeGovernance {
        authority: addr(1),
        vault: vault(),
        quorum_bps,
        pass_threshold_bps,
        voting_period_slots,
    }
}

fn propose() -> Instruction {
    Instruction::CreateProposal {
        vault: vault(),
        creator: addr(4),
        strategy_hash: [7; 32],
        metadata_uri: [8; 96],
    }
}

fn vote(index: u64, voter: u8, support_yes: bool, weight: u64) -> Instruction {
    Instruction::CastVote { vault: vault(), index, voter: addr(voter), support_yes, weight }
}

fn finalize(index: u64, total_voting_power: u64) -> Instruction {
    Instruction::FinalizeProposal { vault: vault(), index, total_voting_power }
}

fn mint(index: u64) -> Instruction {
    Instruction::CreateExecutionTicket {
        vault: vault(),
        index,
        creator: addr(9),
        execution_hash: [11; 32],
    }
}

fn consume(index: u64) -> Instruction {
    Instruction::ConsumeExecutionTicket { vault: vault(), index, executor: addr(12) }
}

/// A store with a config of quorum 20%, threshold 60% and a window of 100
/// slots, and one proposal created at slot 1000.
fn store_with_proposal() -> Ledger {
    let mut ledger = Ledger::new(program());
    assert_eq!(ledger.process(10, &init(2000, 6000, 100)), Ok(()));
    assert_eq!(ledger.process(1000, &propose()), Ok(()));
    ledger
}

/// The store above with 700 yes and 300 no on its proposal.
fn store_with_votes() -> Ledger {
    let mut ledger = store_with_proposal();
    assert_eq!(ledger.process(1000, &vote(0, 20, true, 400)), Ok(()));
    assert_eq!(ledger.process(1050, &vote(0, 21, false, 300)), Ok(()));
    assert_eq!(ledger.process(1100, &vote(0, 22, true, 300)), Ok(()));
    ledger
}

fn rejected(e: GovernanceError) -> Result<(), LedgerError> {
    Err(LedgerError::Rejected(e))
}

#[test]
fn new_store_is_empty() {
    let ledger = Ledger::new(program());
    assert_eq!(ledger.len(), 0);
    assert_eq!(ledger.program_id(), program());
    assert_eq!(ledger.get(&addr(1)), None);
    assert_eq!(ledger.find_config(&vault()), Err(LedgerError::AccountMissing));
}

#[test]
fn initialize_stores_the_config_at_the_vaults_address() {
    let mut ledger = Ledger::new(program());
    assert_eq!(ledger.process(10, &init(2000, 6000, 100)), Ok(()));
    let (key, bump) = GovernanceConfig::find_address(&program(), &vault()).unwrap();
    let expected = GovernanceConfig {
        authority: addr(1),
        vault: vault(),
        quorum_bps: 2000,
        pass_threshold_bps: 6000,
        voting_period_slots: 100,
        bump,
        next_proposal_index: 0,
    };
    assert_eq!(ledger.find_config(&vault()), Ok((key, expected)));
    assert_eq!(ledger.get(&key), Some(Record::Config(expected)));
    assert_eq!(ledger.len(), 1);
}

#[test]
fn a_vault_gets_one_config() {
    let mut ledger = Ledger::new(program());
    assert_eq!(ledger.process(10, &init(2000, 6000, 100)), Ok(()));
    let before = ledger.find_config(&vault());
    assert_eq!(ledger.process(11, &init(1, 2, 3)), Err(LedgerError::AccountInUse));
    assert_eq!(ledger.process(11, &init(10_001, 2, 3)), Err(LedgerError::AccountInUse));
    assert_eq!(ledger.find_config(&vault()), before);
    assert_eq!(ledger.len(), 1);
}

#[test]
fn invalid_thresholds_create_nothing() {
    let mut ledger = Ledger::new(program());
    assert_eq!(ledger.process(10, &init(10_001, 6000, 100)), rejected(GovernanceError::InvalidBps));
    assert_eq!(ledger.process(10, &init(2000, 10_001, 100)), rejected(GovernanceError::InvalidBps));
    assert_eq!(ledger.len(), 0);
    assert_eq!(ledger.process(10, &init(10_000, 10_000, 100)), Ok(()));
}

#[test]
fn proposals_are_numbered_from_zero_without_gaps() {
    let mut ledger = Ledger::new(program());
    assert_eq!(ledger.process(5, &propose()), Err(LedgerError::AccountMissing));
    assert_eq!(ledger.process(10, &init(2000, 6000, 100)), Ok(()));
    assert_eq!(ledger.process(20, &propose()), Ok(()));
    assert_eq!(ledger.process(21, &init(2000, 6000, 100)), Err(LedgerError::AccountInUse));
    assert_eq!(ledger.process(u64::MAX, &propose()), rejected(GovernanceError::MathOverflow));
    assert_eq!(ledger.process(30, &propose()), Ok(()));
    assert_eq!(ledger.process(40, &vote(0, 20, true, 1)), Ok(()));
    assert_eq!(ledger.process(50, &propose()), Ok(()));
    let (config_key, config) = ledger.find_config(&vault()).unwrap();
    assert_eq!(config.next_proposal_index, 3);
    for index in 0..3u64 {
        let at = ledger.locate(&vault(), index).unwrap();
        assert_eq!(at.proposal.index, index);
        assert_eq!(at.proposal.governance, config_key);
        assert_eq!(at.config, config);
    }
    assert_eq!(ledger.locate(&vault(), 0).unwrap().proposal.start_slot, 20);
    assert_eq!(ledger.locate(&vault(), 1).unwrap().proposal.start_slot, 30);
    assert_eq!(ledger.locate(&vault(), 2).unwrap().proposal.end_slot, 150);
    assert_eq!(ledger.locate(&vault(), 3), Err(LedgerError::AccountMissing));
}

#[test]
fn each_vault_has_its_own_counter() {
    let mut ledger = store_with_proposal();
    let other = Instruction::InitializeGovernance {
        authority: addr(1),
        vault: addr(3),
        quorum_bps: 0,
        pass_threshold_bps: 0,
        voting_period_slots: 5,
    };
    assert_eq!(ledger.process(2000, &other), Ok(()));
    let create = Instruction::CreateProposal {
        vault: addr(3),
        creator: addr(4),
        strategy_hash: [1; 32],
        metadata_uri: [0; 96],
    };
    assert_eq!(ledger.process(2001, &create), Ok(()));
    assert_eq!(ledger.locate(&addr(3), 0).unwrap().proposal.index, 0);
    assert_eq!(ledger.find_config(&addr(3)).unwrap().1.next_proposal_index, 1);
    assert_eq!(ledger.find_config(&vault()).unwrap().1.next_proposal_index, 1);
}

#[test]
fn a_voter_votes_once_on_a_proposal() {
    let mut ledger = store_with_proposal();
    assert_eq!(ledger.process(1001, &vote(0, 20, true, 5)), Ok(()));
    let after_first = ledger.locate(&vault(), 0);
    assert_eq!(ledger.process(1002, &vote(0, 20, true, 5)), Err(LedgerError::AccountInUse));
    assert_eq!(ledger.process(1003, &vote(0, 20, false, 9)), Err(LedgerError::AccountInUse));
    assert_eq!(ledger.process(5000, &vote(0, 20, false, 0)), Err(LedgerError::AccountInUse));
    assert_eq!(ledger.locate(&vault(), 0), after_first);
    let record = ledger.find_vote(&vault(), 0, &addr(20)).unwrap();
    assert!(record.support);
    assert_eq!(record.weight, 5);
}

#[test]
fn a_refused_vote_leaves_the_voter_free_to_vote() {
    let mut ledger = store_with_proposal();
    assert_eq!(ledger.process(1001, &vote(0, 20, true, 0)), rejected(GovernanceError::ZeroWeight));
    assert_eq!(ledger.process(999, &vote(0, 20, true, 5)), rejected(GovernanceError::VotingClosed));
    assert_eq!(ledger.find_vote(&vault(), 0, &addr(20)), Err(LedgerError::AccountMissing));
    assert_eq!(ledger.process(1001, &vote(0, 20, true, 5)), Ok(()));
}

#[test]
fn a_voter_may_vote_on_each_proposal() {
    let mut ledger = store_with_proposal();
    assert_eq!(ledger.process(1010, &propose()), Ok(()));
    assert_eq!(ledger.process(1020, &vote(0, 20, true, 5)), Ok(()));
    assert_eq!(ledger.process(1020, &vote(1, 20, false, 6)), Ok(()));
    assert_eq!(ledger.locate(&vault(), 0).unwrap().proposal.yes_votes, 5);
    assert_eq!(ledger.locate(&vault(), 1).unwrap().proposal.no_votes, 6);
    assert_eq!(ledger.locate(&vault(), 1).unwrap().proposal.yes_votes, 0);
}

#[test]
fn tallies_are_the_sums_of_the_accepted_weights() {
    let mut ledger = store_with_proposal();
    let votes: [(u8, bool, u64, bool); 7] = [
        (20, true, 100, true),
        (21, false, 40, true),
        (20, true, 100, false),
        (22, true, 0, false),
        (23, true, 250, true),
        (21, true, 40, false),
        (24, false, 7, true),
    ];
    let mut yes: u64 = 0;
    let mut no: u64 = 0;
    for (voter, support_yes, weight, accepted) in votes {
        let res = ledger.process(1050, &vote(0, voter, support_yes, weight));
        assert_eq!(res.is_ok(), accepted);
        if accepted {
            if support_yes {
                yes += weight;
            } else {
                no += weight;
            }
        }
    }
    let proposal = ledger.locate(&vault(), 0).unwrap().proposal;
    assert_eq!(proposal.yes_votes, 350);
    assert_eq!(proposal.no_votes, 47);
    assert_eq!(proposal.yes_votes, yes);
    assert_eq!(proposal.no_votes, no);
}

#[test]
fn votes_count_inside_the_window_only() {
    let mut ledger = store_with_proposal();
    assert_eq!(ledger.process(999, &vote(0, 20, true, 5)), rejected(GovernanceError::VotingClosed));
    assert_eq!(
        ledger.process(1101, &vote(0, 20, true, 5)),
        rejected(GovernanceError::VotingClosed)
    );
    assert_eq!(ledger.process(1000, &vote(0, 20, true, 5)), Ok(()));
    assert_eq!(ledger.process(1100, &vote(0, 21, true, 5)), Ok(()));
    assert_eq!(ledger.locate(&vault(), 0).unwrap().proposal.yes_votes, 10);
}

#[test]
fn finalize_waits_for_the_end_of_the_window() {
    let mut ledger = store_with_votes();
    let before = ledger.locate(&vault(), 0);
    assert_eq!(
        ledger.process(1000, &finalize(0, 4000)),
        rejected(GovernanceError::VotingStillOpen)
    );
    assert_eq!(
        ledger.process(1100, &finalize(0, 4000)),
        rejected(GovernanceError::VotingStillOpen)
    );
    assert_eq!(ledger.locate(&vault(), 0), before);
    assert_eq!(ledger.process(1101, &finalize(0, 4000)), Ok(()));
}

#[test]
fn quorum_and_threshold_decide_the_literal_case() {
    let mut ledger = store_with_votes();
    let proposal = ledger.locate(&vault(), 0).unwrap().proposal;
    assert_eq!((proposal.yes_votes, proposal.no_votes), (700, 300));
    assert_eq!(ledger.process(1101, &finalize(0, 6000)), rejected(GovernanceError::NoQuorum));
    assert!(!ledger.locate(&vault(), 0).unwrap().proposal.approved);
    assert_eq!(ledger.process(1101, &finalize(0, 4000)), Ok(()));
    assert!(ledger.locate(&vault(), 0).unwrap().proposal.approved);
}

#[test]
fn finalize_without_votes_and_without_quorum_is_refused() {
    let mut ledger = Ledger::new(program());
    assert_eq!(ledger.process(10, &init(0, 6000, 100)), Ok(()));
    assert_eq!(ledger.process(1000, &propose()), Ok(()));
    assert_eq!(ledger.process(1101, &finalize(0, 0)), rejected(GovernanceError::NoQuorum));
    let proposal = ledger.locate(&vault(), 0).unwrap().proposal;
    assert!(!proposal.approved);
    assert_eq!(ledger.process(1102, &mint(0)), rejected(GovernanceError::NotApproved));
}

#[test]
fn a_proposal_gets_one_ticket_and_the_ticket_is_consumed_once() {
    let mut ledger = store_with_votes();
    assert_eq!(ledger.process(1101, &finalize(0, 4000)), Ok(()));
    assert_eq!(ledger.find_ticket(&vault(), 0), Err(LedgerError::AccountMissing));
    assert_eq!(ledger.process(1102, &consume(0)), Err(LedgerError::AccountMissing));
    assert_eq!(ledger.process(1102, &mint(0)), Ok(()));
    let at = ledger.locate(&vault(), 0).unwrap();
    assert!(!at.proposal.executed);
    let (ticket_key, bump) = ExecutionTicket::find_address(&program(), &at.proposal_key).unwrap();
    let ticket = ExecutionTicket {
        proposal: at.proposal_key,
        governance: at.config_key,
        vault: vault(),
        creator: addr(9),
        execution_hash: [11; 32],
        consumed: false,
        bump,
    };
    assert_eq!(ledger.find_ticket(&vault(), 0), Ok(ticket));
    assert_eq!(ledger.get(&ticket_key), Some(Record::Ticket(ticket)));
    assert_eq!(ledger.process(1103, &mint(0)), Err(LedgerError::AccountInUse));
    assert_eq!(ledger.find_ticket(&vault(), 0), Ok(ticket));
    assert_eq!(ledger.process(1104, &consume(0)), Ok(()));
    assert!(ledger.find_ticket(&vault(), 0).unwrap().consumed);
    assert!(ledger.locate(&vault(), 0).unwrap().proposal.executed);
    assert_eq!(ledger.process(1105, &consume(0)), rejected(GovernanceError::AlreadyConsumed));
    let executed = ledger.locate(&vault(), 0);
    let consumed = ledger.find_ticket(&vault(), 0);
    assert_eq!(ledger.process(1106, &mint(0)), rejected(GovernanceError::AlreadyExecuted));
    let other = Instruction::CreateExecutionTicket {
        vault: vault(),
        index: 0,
        creator: addr(10),
        execution_hash: [12; 32],
    };
    assert_eq!(ledger.process(1107, &other), rejected(GovernanceError::AlreadyExecuted));
    assert_eq!(ledger.locate(&vault(), 0), executed);
    assert_eq!(ledger.find_ticket(&vault(), 0), consumed);
    assert!(ledger.find_ticket(&vault(), 0).unwrap().consumed);
}

#[test]
fn a_second_mint_hears_the_rule_before_it_hears_of_the_ticket() {
    // Votes at an earlier slot and a new finalization withdraw the approval.
    let mut ledger = store_with_votes();
    assert_eq!(ledger.process(1101, &finalize(0, 4000)), Ok(()));
    assert_eq!(ledger.process(1102, &mint(0)), Ok(()));
    assert_eq!(ledger.process(1103, &mint(0)), Err(LedgerError::AccountInUse));
    assert_eq!(ledger.process(1050, &vote(0, 40, false, 5000)), Ok(()));
    assert_eq!(ledger.process(1104, &finalize(0, 4000)), Ok(()));
    assert!(!ledger.locate(&vault(), 0).unwrap().proposal.approved);
    let ticket = ledger.find_ticket(&vault(), 0);
    assert_eq!(ledger.process(1105, &mint(0)), rejected(GovernanceError::NotApproved));
    assert_eq!(ledger.find_ticket(&vault(), 0), ticket);
}

#[test]
fn no_ticket_without_approval() {
    let mut ledger = store_with_votes();
    assert_eq!(ledger.process(1050, &mint(0)), rejected(GovernanceError::NotApproved));
    assert_eq!(ledger.process(1101, &finalize(0, 6000)), rejected(GovernanceError::NoQuorum));
    assert_eq!(ledger.process(1102, &mint(0)), rejected(GovernanceError::NotApproved));
    assert_eq!(ledger.process(1102, &consume(0)), Err(LedgerError::AccountMissing));
    assert_eq!(ledger.find_ticket(&vault(), 0), Err(LedgerError::AccountMissing));
}

#[test]
fn a_rejected_proposal_gets_no_ticket_whatever_its_tallies() {
    let mut ledger = store_with_proposal();
    assert_eq!(ledger.process(1001, &vote(0, 20, true, 599)), Ok(()));
    assert_eq!(ledger.process(1001, &vote(0, 21, false, 401)), Ok(()));
    assert_eq!(ledger.process(1101, &finalize(0, 4000)), Ok(()));
    assert!(!ledger.locate(&vault(), 0).unwrap().proposal.approved);
    assert_eq!(ledger.process(1102, &mint(0)), rejected(GovernanceError::NotApproved));
}

#[test]
fn instructions_on_records_that_do_not_exist_are_refused() {
    let mut ledger = store_with_proposal();
    assert_eq!(ledger.process(1001, &vote(1, 20, true, 5)), Err(LedgerError::AccountMissing));
    assert_eq!(ledger.process(1101, &finalize(7, 4000)), Err(LedgerError::AccountMissing));
    assert_eq!(ledger.process(1101, &mint(1)), Err(LedgerError::AccountMissing));
    assert_eq!(ledger.process(1101, &consume(1)), Err(LedgerError::AccountMissing));
    let stranger = Instruction::CastVote {
        vault: addr(77),
        index: 0,
        voter: addr(20),
        support_yes: true,
        weight: 5,
    };
    assert_eq!(ledger.process(1001, &stranger), Err(LedgerError::AccountMissing));
    assert_eq!(ledger.len(), 2);
}

#[test]
fn every_record_has_its_own_address() {
    let mut ledger = store_with_votes();
    assert_eq!(ledger.process(1101, &finalize(0, 4000)), Ok(()));
    assert_eq!(ledger.process(1102, &mint(0)), Ok(()));
    // one config, one proposal, three votes, one ticket
    assert_eq!(ledger.len(), 6);
    let at = ledger.locate(&vault(), 0).unwrap();
    let (vote_key, bump) =
        VoteRecord::find_address(&program(), &at.proposal_key, &addr(21)).unwrap();
    let expected = VoteRecord {
        proposal: at.proposal_key,
        voter: addr(21),
        support: false,
        weight: 300,
        bump,
    };
    assert_eq!(ledger.get(&vote_key), Some(Record::Vote(expected)));
    assert_eq!(ledger.find_vote(&vault(), 0, &addr(21)), Ok(expected));
    let (proposal_key, _) = Proposal::find_address(&program(), &at.config_key, 0).unwrap();
    assert_eq!(proposal_key, at.proposal_key);
    assert_eq!(ledger.get(&proposal_key), Some(Record::Proposal(at.proposal)));
}

#[test]
fn process_all_reports_each_step_and_goes_on_after_a_refusal() {
    let steps = vec![
        Step { slot: 10, instruction: init(2000, 6000, 100) },
        Step { slot: 11, instruction: init(2000, 6000, 100) },
        Step { slot: 1000, instruction: propose() },
        Step { slot: 1001, instruction: vote(0, 20, true, 700) },
        Step { slot: 1001, instruction: vote(0, 20, true, 700) },
        Step { slot: 1002, instruction: vote(0, 21, false, 300) },
        Step { slot: 1100, instruction: finalize(0, 4000) },
        Step { slot: 1101, instruction: finalize(0, 4000) },
        Step { slot: 1102, instruction: mint(0) },
        Step { slot: 1103, instruction: consume(0) },
        Step { slot: 1104, instruction: consume(0) },
    ];
    let mut ledger = Ledger::new(program());
    let results = ledger.process_all(&steps);
    assert_eq!(
        results,
        vec![
            Ok(()),
            Err(LedgerError::AccountInUse),
            Ok(()),
            Ok(()),
            Err(LedgerError::AccountInUse),
            Ok(()),
            rejected(GovernanceError::VotingStillOpen),
            Ok(()),
            Ok(()),
            Ok(()),
            rejected(GovernanceError::AlreadyConsumed),
        ]
    );
    let mut one_by_one = Ledger::new(program());
    for step in &steps {
        let _ = one_by_one.process(step.slot, &step.instruction);
    }
    assert_eq!(ledger.locate(&vault(), 0), one_by_one.locate(&vault(), 0));
    assert_eq!(ledger.len(), one_by_one.len());
    assert!(ledger.locate(&vault(), 0).unwrap().proposal.executed);
    assert_eq!(ledger.process_all(&Vec::new()), Vec::new());
}

#[test]
fn keys_from_which_no_address_follows_are_refused() {
    let long: Vec<Vec<u8>> = vec![vec![0; 33]];
    assert_eq!(find_address(&long, &program()), None);
}

/// A store with a config at address 100 and a proposal at address 101,
/// created at slot 1000 with a window of 100 slots.
fn store_by_address() -> Ledger {
    let mut ledger = Ledger::new(program());
    let init = Resolved::InitializeGovernance {
        governance_config: addr(100),
        bump: 250,
        authority: addr(1),
        vault: vault(),
        quorum_bps: 2000,
        pass_threshold_bps: 6000,
        voting_period_slots: 100,
    };
    assert_eq!(ledger.execute(10, &init), Ok(()));
    let create = Resolved::CreateProposal {
        governance_config: addr(100),
        proposal: addr(101),
        bump: 249,
        creator: addr(4),
        strategy_hash: [7; 32],
        metadata_uri: [8; 96],
    };
    assert_eq!(ledger.execute(1000, &create), Ok(()));
    ledger
}

fn vote_at(vote_record: u8, voter: u8, support_yes: bool, weight: u64) -> Resolved {
    Resolved::CastVote {
        governance_config: addr(100),
        proposal: addr(101),
        vote_record: addr(vote_record),
        bump: 248,
        voter: addr(voter),
        support_yes,
        weight,
    }
}

#[test]
fn execute_writes_the_records_at_the_addresses_it_is_given() {
    let ledger = store_by_address();
    assert_eq!(ledger.len(), 2);
    assert_eq!(
        ledger.get(&addr(100)),
        Some(Record::Config(GovernanceConfig {
            authority: addr(1),
            vault: vault(),
            quorum_bps: 2000,
            pass_threshold_bps: 6000,
            voting_period_slots: 100,
            bump: 250,
            next_proposal_index: 1,
        }))
    );
    assert_eq!(
        ledger.get(&addr(101)),
        Some(Record::Proposal(Proposal {
            governance: addr(100),
            index: 0,
            creator: addr(4),
            strategy_hash: [7; 32],
            metadata_uri: [8; 96],
            yes_votes: 0,
            no_votes: 0,
            start_slot: 1000,
            end_slot: 1100,
            executed: false,
            approved: false,
            bump: 249,
        }))
    );
    assert_eq!(ledger.get(&addr(102)), None);
}

#[test]
fn execute_creates_no_record_at_an_address_that_is_taken() {
    let mut ledger = store_by_address();
    let init = Resolved::InitializeGovernance {
        governance_config: addr(101),
        bump: 250,
        authority: addr(1),
        vault: addr(3),
        quorum_bps: 1,
        pass_threshold_bps: 1,
        voting_period_slots: 1,
    };
    assert_eq!(ledger.execute(1001, &init), Err(LedgerError::AccountInUse));
    let create = Resolved::CreateProposal {
        governance_config: addr(100),
        proposal: addr(100),
        bump: 249,
        creator: addr(4),
        strategy_hash: [7; 32],
        metadata_uri: [8; 96],
    };
    assert_eq!(ledger.execute(1001, &create), Err(LedgerError::AccountInUse));
    assert_eq!(ledger.execute(1001, &vote_at(101, 20, true, 5)), Err(LedgerError::AccountInUse));
    assert_eq!(ledger.execute(1001, &vote_at(102, 20, true, 5)), Ok(()));
    assert_eq!(ledger.execute(1001, &vote_at(102, 21, false, 6)), Err(LedgerError::AccountInUse));
    let mint = Resolved::CreateExecutionTicket {
        governance_config: addr(100),
        proposal: addr(101),
        execution_ticket: addr(102),
        bump: 247,
        creator: addr(9),
        execution_hash: [11; 32],
    };
    // For a ticket the rules come first, the address second.
    assert_eq!(ledger.execute(1200, &mint), rejected(GovernanceError::NotApproved));
    let finalize = Resolved::FinalizeProposal {
        governance_config: addr(100),
        proposal: addr(101),
        total_voting_power: 0,
    };
    assert_eq!(ledger.execute(1200, &finalize), Ok(()));
    assert_eq!(ledger.execute(1200, &mint), Err(LedgerError::AccountInUse));
    assert_eq!(ledger.len(), 3);
    assert_eq!(
        ledger.get(&addr(102)),
        Some(Record::Vote(VoteRecord {
            proposal: addr(101),
            voter: addr(20),
            support: true,
            weight: 5,
            bump: 248,
        }))
    );
}

#[test]
fn execute_reads_a_record_only_where_one_of_its_kind_is_stored() {
    let mut ledger = store_by_address();
    let swapped = Resolved::CastVote {
        governance_config: addr(101),
        proposal: addr(100),
        vote_record: addr(102),
        bump: 248,
        voter: addr(20),
        support_yes: true,
        weight: 5,
    };
    assert_eq!(ledger.execute(1001, &swapped), Err(LedgerError::AccountMissing));
    let no_config = Resolved::FinalizeProposal {
        governance_config: addr(99),
        proposal: addr(101),
        total_voting_power: 0,
    };
    assert_eq!(ledger.execute(1101, &no_config), Err(LedgerError::AccountMissing));
    let no_proposal = Resolved::CreateProposal {
        governance_config: addr(101),
        proposal: addr(103),
        bump: 1,
        creator: addr(4),
        strategy_hash: [7; 32],
        metadata_uri: [8; 96],
    };
    assert_eq!(ledger.execute(1001, &no_proposal), Err(LedgerError::AccountMissing));
    assert_eq!(ledger.execute(1001, &vote_at(102, 20, true, 5)), Ok(()));
    let vote_as_ticket = Resolved::ConsumeExecutionTicket {
        governance_config: addr(100),
        proposal: addr(101),
        execution_ticket: addr(102),
        executor: addr(12),
    };
    assert_eq!(ledger.execute(1200, &vote_as_ticket), Err(LedgerError::AccountMissing));
    assert_eq!(ledger.len(), 3);
}

#[test]
fn execute_carries_a_proposal_from_vote_to_execution() {
    let mut ledger = store_by_address();
    assert_eq!(ledger.execute(1000, &vote_at(110, 20, true, 700)), Ok(()));
    assert_eq!(ledger.execute(1100, &vote_at(111, 21, false, 300)), Ok(()));
    assert_eq!(
        ledger.execute(1101, &vote_at(112, 22, true, 1)),
        rejected(GovernanceError::VotingClosed)
    );
    let finalize = |total_voting_power: u64| Resolved::FinalizeProposal {
        governance_config: addr(100),
        proposal: addr(101),
        total_voting_power,
    };
    assert_eq!(ledger.execute(1100, &finalize(4000)), rejected(GovernanceError::VotingStillOpen));
    assert_eq!(ledger.execute(1101, &finalize(6000)), rejected(GovernanceError::NoQuorum));
    let mint = Resolved::CreateExecutionTicket {
        governance_config: addr(100),
        proposal: addr(101),
        execution_ticket: addr(120),
        bump: 247,
        creator: addr(9),
        execution_hash: [11; 32],
    };
    assert_eq!(ledger.execute(1101, &mint), rejected(GovernanceError::NotApproved));
    assert_eq!(ledger.execute(1101, &finalize(4000)), Ok(()));
    assert_eq!(ledger.execute(1102, &mint), Ok(()));
    let ticket = ExecutionTicket {
        proposal: addr(101),
        governance: addr(100),
        vault: vault(),
        creator: addr(9),
        execution_hash: [11; 32],
        consumed: false,
        bump: 247,
    };
    assert_eq!(ledger.get(&addr(120)), Some(Record::Ticket(ticket)));
    let consume = Resolved::ConsumeExecutionTicket {
        governance_config: addr(100),
        proposal: addr(101),
        execution_ticket: addr(120),
        executor: addr(12),
    };
    assert_eq!(ledger.execute(1103, &consume), Ok(()));
    assert_eq!(
        ledger.get(&addr(120)),
        Some(Record::Ticket(ExecutionTicket { consumed: true, ..ticket }))
    );
    match ledger.get(&addr(101)) {
        Some(Record::Proposal(p)) => {
            assert!(p.approved && p.executed);
            assert_eq!((p.yes_votes, p.no_votes), (700, 300));
        }
        other => panic!("no proposal: {:?}", other),
    }
    assert_eq!(ledger.execute(1104, &consume), rejected(GovernanceError::AlreadyConsumed));
    assert_eq!(ledger.execute(1105, &mint), rejected(GovernanceError::AlreadyExecuted));
    // A second ticket is refused because the proposal is executed, at whatever address.
    let again = Resolved::CreateExecutionTicket {
        governance_config: addr(100),
        proposal: addr(101),
        execution_ticket: addr(121),
        bump: 247,
        creator: addr(9),
        execution_hash: [11; 32],
    };
    assert_eq!(ledger.execute(1105, &again), rejected(GovernanceError::AlreadyExecuted));
    assert_eq!(ledger.len(), 5);
}

#[test]
fn resolve_names_the_addresses_that_follow_from_the_keys() {
    let ledger = store_with_proposal();
    let (config_key, _) = GovernanceConfig::find_address(&program(), &vault()).unwrap();
    let (proposal_key, _) = Proposal::find_address(&program(), &config_key, 0).unwrap();
    let (vote_key, vote_bump) =
        VoteRecord::find_address(&program(), &proposal_key, &addr(20)).unwrap();
    assert_eq!(
        ledger.resolve(&vote(0, 20, true, 5)),
        Ok(Resolved::CastVote {
            governance_config: config_key,
            proposal: proposal_key,
            vote_record: vote_key,
            bump: vote_bump,
            voter: addr(20),
            support_yes: true,
            weight: 5,
        })
    );
    let (next_key, next_bump) = Proposal::find_address(&program(), &config_key, 1).unwrap();
    assert_eq!(
        ledger.resolve(&propose()),
        Ok(Resolved::CreateProposal {
            governance_config: config_key,
            proposal: next_key,
            bump: next_bump,
            creator: addr(4),
            strategy_hash: [7; 32],
            metadata_uri: [8; 96],
        })
    );
    let (ticket_key, ticket_bump) =
        ExecutionTicket::find_address(&program(), &proposal_key).unwrap();
    assert_eq!(
        ledger.resolve(&mint(0)),
        Ok(Resolved::CreateExecutionTicket {
            governance_config: config_key,
            proposal: proposal_key,
            execution_ticket: ticket_key,
            bump: ticket_bump,
            creator: addr(9),
            execution_hash: [11; 32],
        })
    );
    assert_eq!(
        ledger.resolve(&consume(0)),
        Ok(Resolved::ConsumeExecutionTicket {
            governance_config: config_key,
            proposal: proposal_key,
            execution_ticket: ticket_key,
            executor: addr(12),
        })
    );
    assert_eq!(
        ledger.resolve(&finalize(0, 4000)),
        Ok(Resolved::FinalizeProposal {
            governance_config: config_key,
            proposal: proposal_key,
            total_voting_power: 4000,
        })
    );
    let empty = Ledger::new(program());
    assert_eq!(empty.resolve(&propose()), Err(LedgerError::AccountMissing));
    let (_, config_bump) = GovernanceConfig::find_address(&program(), &vault()).unwrap();
    assert_eq!(
        empty.resolve(&init(1, 2, 3)),
        Ok(Resolved::InitializeGovernance {
            governance_config: config_key,
            bump: config_bump,
            authority: addr(1),
            vault: vault(),
            quorum_bps: 1,
            pass_threshold_bps: 2,
            voting_period_slots: 3,
        })
    );
}

#[test]
fn execute_reads_a_record_only_under_the_parent_it_names() {
    let mut ledger = store_by_address();
    let other = Resolved::InitializeGovernance {
        governance_config: addr(200),
        bump: 250,
        authority: addr(1),
        vault: addr(3),
        quorum_bps: 0,
        pass_threshold_bps: 0,
        voting_period_slots: 100,
    };
    assert_eq!(ledger.execute(10, &other), Ok(()));
    let create = Resolved::CreateProposal {
        governance_config: addr(200),
        proposal: addr(201),
        bump: 249,
        creator: addr(4),
        strategy_hash: [7; 32],
        metadata_uri: [8; 96],
    };
    assert_eq!(ledger.execute(1000, &create), Ok(()));
    let vote = Resolved::CastVote {
        governance_config: addr(200),
        proposal: addr(101),
        vote_record: addr(110),
        bump: 248,
        voter: addr(20),
        support_yes: true,
        weight: 5,
    };
    assert_eq!(ledger.execute(1001, &vote), Err(LedgerError::WrongParent));
    let finalize = Resolved::FinalizeProposal {
        governance_config: addr(200),
        proposal: addr(101),
        total_voting_power: 0,
    };
    assert_eq!(ledger.execute(1101, &finalize), Err(LedgerError::WrongParent));
    let mint = Resolved::CreateExecutionTicket {
        governance_config: addr(200),
        proposal: addr(101),
        execution_ticket: addr(120),
        bump: 247,
        creator: addr(9),
        execution_hash: [11; 32],
    };
    assert_eq!(ledger.execute(1101, &mint), Err(LedgerError::WrongParent));
    assert_eq!(ledger.len(), 4);

    // Approve both proposals and mint the ticket of the first.
    assert_eq!(ledger.execute(1001, &vote_at(110, 20, true, 5)), Ok(()));
    let second_vote = Resolved::CastVote {
        governance_config: addr(200),
        proposal: addr(201),
        vote_record: addr(210),
        bump: 248,
        voter: addr(20),
        support_yes: true,
        weight: 5,
    };
    assert_eq!(ledger.execute(1001, &second_vote), Ok(()));
    for (config, proposal) in [(100, 101), (200, 201)] {
        let finalize = Resolved::FinalizeProposal {
            governance_config: addr(config),
            proposal: addr(proposal),
            total_voting_power: 0,
        };
        assert_eq!(ledger.execute(1101, &finalize), Ok(()));
    }
    let mint = Resolved::CreateExecutionTicket {
        governance_config: addr(100),
        proposal: addr(101),
        execution_ticket: addr(120),
        bump: 247,
        creator: addr(9),
        execution_hash: [11; 32],
    };
    assert_eq!(ledger.execute(1102, &mint), Ok(()));
    // The ticket of the first proposal does not execute the second.
    let stolen = Resolved::ConsumeExecutionTicket {
        governance_config: addr(200),
        proposal: addr(201),
        execution_ticket: addr(120),
        executor: addr(12),
    };
    assert_eq!(ledger.execute(1103, &stolen), Err(LedgerError::WrongParent));
    let misfiled = Resolved::ConsumeExecutionTicket {
        governance_config: addr(200),
        proposal: addr(101),
        execution_ticket: addr(120),
        executor: addr(12),
    };
    assert_eq!(ledger.execute(1103, &misfiled), Err(LedgerError::WrongParent));
    match ledger.get(&addr(201)) {
        Some(Record::Proposal(p)) => assert!(p.approved && !p.executed),
        other => panic!("no proposal: {:?}", other),
    }
    let consume = Resolved::ConsumeExecutionTicket {
        governance_config: addr(100),
        proposal: addr(101),
        execution_ticket: addr(120),
        executor: addr(12),
    };
    assert_eq!(ledger.execute(1103, &consume), Ok(()));
}

#[test]
fn a_decision_stands_after_the_window() {
    let mut ledger = store_with_votes();
    assert_eq!(ledger.process(1101, &finalize(0, 4000)), Ok(()));
    let decided = ledger.locate(&vault(), 0).unwrap().proposal;
    assert!(decided.approved);
    assert_eq!(
        ledger.process(1102, &vote(0, 30, false, 1_000_000)),
        rejected(GovernanceError::VotingClosed)
    );
    assert_eq!(ledger.process(1103, &finalize(0, 1_000_000)), rejected(GovernanceError::NoQuorum));
    assert_eq!(ledger.process(1104, &finalize(0, 0)), Ok(()));
    assert_eq!(ledger.process(u64::MAX, &finalize(0, 5000)), Ok(()));
    assert_eq!(ledger.locate(&vault(), 0).unwrap().proposal, decided);
}

#[test]
fn execute_takes_the_addresses_as_they_are_handed_in() {
    // One record per address is all that `execute` keeps: the same voter at
    // two addresses is two votes. `process` gives a voter one address.
    let mut ledger = store_by_address();
    assert_eq!(ledger.execute(1001, &vote_at(110, 20, true, 5)), Ok(()));
    assert_eq!(ledger.execute(1001, &vote_at(111, 20, true, 7)), Ok(()));
    match ledger.get(&addr(101)) {
        Some(Record::Proposal(p)) => assert_eq!(p.yes_votes, 12),
        other => panic!("no proposal: {:?}", other),
    }
    let mut by_keys = store_with_proposal();
    assert_eq!(by_keys.process(1001, &vote(0, 20, true, 5)), Ok(()));
    assert_eq!(by_keys.process(1001, &vote(0, 20, true, 7)), Err(LedgerError::AccountInUse));
    assert_eq!(by_keys.locate(&vault(), 0).unwrap().proposal.yes_votes, 5);
}
