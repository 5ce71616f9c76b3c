//! What holds of every sequence of instructions.
//!
//! A history is a sequence of steps, each an instruction with the clock value
//! at which it arrives. A step that the store refuses changes nothing, so a
//! history may hold refused steps anywhere. Where a law does not say
//! otherwise, nothing is asked of the clock values: it holds in whatever
//! order they come.

use vstd::prelude::*;
use crate::address::Address;
use crate::error::{GovernanceError, LedgerError};
use crate::instructions::{
    proposal_finalized, quorum_votes, ticket_consumed, ticket_created, vote_cast,
    yes_ratio_bps,
};
use crate::state::{ExecutionTicket, GovernanceConfig, Proposal, VoteRecord};
use crate::transition::{
    after, apply, proposal_keys, run, Instruction, Record, Resolved, State, Step,
};

verus! {

/// How a record may differ from an earlier record at the same address: it
/// keeps its kind and its identity, a counter or a tally has not gone down,
/// and a mark that was set is still set. A vote record does not change.
pub open spec fn succeeds(earlier: Record, later: Record) -> bool {
    match (earlier, later) {
        (Record::Config(a), Record::Config(b)) => b == (GovernanceConfig {
            next_proposal_index: b.next_proposal_index,
            ..a
        }) && a.next_proposal_index <= b.next_proposal_index,
        (Record::Proposal(a), Record::Proposal(b)) => b == (Proposal {
            yes_votes: b.yes_votes,
            no_votes: b.no_votes,
            approved: b.approved,
            executed: b.executed,
            ..a
        }) && a.yes_votes <= b.yes_votes && a.no_votes <= b.no_votes && (a.executed
            ==> b.executed),
        (Record::Vote(a), Record::Vote(b)) => a == b,
        (Record::Ticket(a), Record::Ticket(b)) => b == (ExecutionTicket {
            consumed: b.consumed,
            ..a
        }) && (a.consumed ==> b.consumed),
        _ => false,
    }
}

/// Every record of `earlier` is still in `later`, changed only as
/// [`succeeds`] allows.
pub open spec fn persists(earlier: State, later: State) -> bool {
    &&& later.program_id == earlier.program_id
    &&& forall|key: Address| #[trigger]
        earlier.occupied(key) ==> later.occupied(key) && succeeds(
            earlier.accounts[key],
            later.accounts[key],
        )
}

/// Whatever addresses a request names, carrying it out removes no record,
/// changes no record's kind or identity, lowers no counter or tally, and
/// clears no mark.
pub proof fn lemma_execute_persists(state: State, slot: u64, resolved: Resolved)
    requires
        state.execute(slot, resolved) is Ok,
    ensures
        persists(state, state.execute(slot, resolved)->Ok_0),
{
}

/// No instruction removes a record, changes its kind or its identity, lowers
/// a counter or a tally, or clears a mark.
pub proof fn lemma_apply_persists(state: State, slot: u64, instruction: Instruction)
    ensures
        persists(state, after(state, (Step { slot, instruction }))),
{
    if apply(state, slot, instruction) is Ok {
        lemma_execute_persists(state, slot, state.resolve(instruction)->Ok_0);
    }
}

/// Records persist through every history.
pub proof fn lemma_run_persists(state: State, steps: Seq<Step>)
    ensures
        persists(state, run(state, steps)),
    decreases steps.len(),
{
    if steps.len() > 0 {
        lemma_run_persists(state, steps.drop_last());
        let before = run(state, steps.drop_last());
        lemma_apply_persists(before, steps.last().slot, steps.last().instruction);
    }
}

/// The address at which `resolved` creates a record, if it creates one.
pub open spec fn created_at(resolved: Resolved) -> Option<Address> {
    match resolved {
        Resolved::InitializeGovernance { governance_config, .. } => Some(governance_config),
        Resolved::CreateProposal { proposal, .. } => Some(proposal),
        Resolved::CastVote { vote_record, .. } => Some(vote_record),
        Resolved::CreateExecutionTicket { execution_ticket, .. } => Some(execution_ticket),
        _ => None,
    }
}

/// One record per address: the store creates no record at an address that
/// is taken, and where it creates one, the address was free and is taken
/// afterwards. This is all that the store knows of the addresses it is
/// handed; that a voter has one address per proposal is for the keys to
/// give.
pub proof fn lemma_one_record_per_address(state: State, slot: u64, resolved: Resolved)
    ensures
        created_at(resolved) is Some && state.occupied(created_at(resolved)->Some_0)
            ==> state.execute(slot, resolved) is Err,
        created_at(resolved) is Some && state.execute(slot, resolved) is Ok ==> {
            &&& !state.occupied(created_at(resolved)->Some_0)
            &&& state.execute(slot, resolved)->Ok_0.occupied(created_at(resolved)->Some_0)
        },
{
}

/// The instruction by which `voter` votes on proposal `index` of `vault`.
pub open spec fn vote(
    vault: Address,
    index: u64,
    voter: Address,
    support_yes: bool,
    weight: u64,
) -> Instruction {
    Instruction::CastVote { vault, index, voter, support_yes, weight }
}

/// The instruction that mints the ticket of proposal `index` of `vault`.
pub open spec fn mint(
    vault: Address,
    index: u64,
    creator: Address,
    execution_hash: [u8; 32],
) -> Instruction {
    Instruction::CreateExecutionTicket { vault, index, creator, execution_hash }
}

/// The instruction that consumes the ticket of proposal `index` of `vault`.
pub open spec fn consume(vault: Address, index: u64, executor: Address) -> Instruction {
    Instruction::ConsumeExecutionTicket { vault, index, executor }
}

/// A voter votes at most once on a proposal: once the store has accepted a
/// vote, it refuses every later vote of that voter on that proposal, whatever
/// has happened in between and whatever the later vote says, because the
/// vote record exists.
pub proof fn lemma_no_double_vote(
    state: State,
    vault: Address,
    index: u64,
    voter: Address,
    first_slot: u64,
    first_support: bool,
    first_weight: u64,
    between: Seq<Step>,
    second_slot: u64,
    second_support: bool,
    second_weight: u64,
)
    requires
        apply(state, first_slot, vote(vault, index, voter, first_support, first_weight)) is Ok,
    ensures
        apply(
            run(
                apply(
                    state,
                    first_slot,
                    vote(vault, index, voter, first_support, first_weight),
                )->Ok_0,
                between,
            ),
            second_slot,
            vote(vault, index, voter, second_support, second_weight),
        ) == Err::<State, LedgerError>(LedgerError::AccountInUse),
{
    let voted = apply(
        state,
        first_slot,
        vote(vault, index, voter, first_support, first_weight),
    )->Ok_0;
    lemma_run_persists(voted, between);
    let (config_key, proposal_key) = proposal_keys(state.program_id, vault, index)->Ok_0;
    let vote_key = VoteRecord::address(state.program_id, proposal_key, voter)->Some_0.0;
    assert(voted.occupied(config_key));
    assert(voted.occupied(proposal_key));
    assert(voted.occupied(vote_key));
}

/// Why the store refuses to mint a ticket for `proposal` when the proposal
/// has one: the proposal is not approved, or it is executed, or, while the
/// ticket waits to be consumed, the ticket exists.
pub open spec fn second_mint_refusal(proposal: Proposal) -> LedgerError {
    if !proposal.approved {
        LedgerError::Rejected(GovernanceError::NotApproved)
    } else if proposal.executed {
        LedgerError::Rejected(GovernanceError::AlreadyExecuted)
    } else {
        LedgerError::AccountInUse
    }
}

/// A proposal gets at most one ticket: once the store has minted the ticket,
/// it refuses every later request to mint one for that proposal, whatever
/// has happened in between and whoever asks with whatever payload. The
/// refusal is the rule's where a rule refuses, and else says that the ticket
/// exists.
pub proof fn lemma_ticket_created_once(
    state: State,
    vault: Address,
    index: u64,
    first_slot: u64,
    first_creator: Address,
    first_hash: [u8; 32],
    between: Seq<Step>,
    second_slot: u64,
    second_creator: Address,
    second_hash: [u8; 32],
)
    requires
        apply(state, first_slot, mint(vault, index, first_creator, first_hash)) is Ok,
    ensures
        ({
            let later = run(
                apply(state, first_slot, mint(vault, index, first_creator, first_hash))->Ok_0,
                between,
            );
            &&& later.locate(vault, index) is Ok
            &&& apply(later, second_slot, mint(vault, index, second_creator, second_hash))
                == Err::<State, LedgerError>(
                second_mint_refusal(later.locate(vault, index)->Ok_0.proposal),
            )
        }),
{
    let minted = apply(state, first_slot, mint(vault, index, first_creator, first_hash))->Ok_0;
    lemma_run_persists(minted, between);
    let (config_key, proposal_key) = proposal_keys(state.program_id, vault, index)->Ok_0;
    let ticket_key = ExecutionTicket::address(state.program_id, proposal_key)->Some_0.0;
    assert(minted.occupied(config_key));
    assert(minted.occupied(proposal_key));
    assert(minted.occupied(ticket_key));
}

/// A ticket is consumed at most once: once the store has consumed the ticket
/// of a proposal, it refuses every later request to consume it, because the
/// ticket is marked as consumed.
pub proof fn lemma_ticket_consumed_once(
    state: State,
    vault: Address,
    index: u64,
    first_slot: u64,
    first_executor: Address,
    between: Seq<Step>,
    second_slot: u64,
    second_executor: Address,
)
    requires
        apply(state, first_slot, consume(vault, index, first_executor)) is Ok,
    ensures
        apply(
            run(apply(state, first_slot, consume(vault, index, first_executor))->Ok_0, between),
            second_slot,
            consume(vault, index, second_executor),
        ) == Err::<State, LedgerError>(LedgerError::Rejected(GovernanceError::AlreadyConsumed)),
{
    let consumed = apply(state, first_slot, consume(vault, index, first_executor))->Ok_0;
    lemma_run_persists(consumed, between);
    let (config_key, proposal_key) = proposal_keys(state.program_id, vault, index)->Ok_0;
    let ticket_key = ExecutionTicket::address(state.program_id, proposal_key)->Some_0.0;
    assert(consumed.occupied(config_key));
    assert(consumed.occupied(proposal_key));
    assert(consumed.occupied(ticket_key));
}

/// Once a proposal is executed, the store mints no ticket for it: it stays
/// executed through every history, and a request to mint its ticket is
/// refused as already executed while the proposal is approved, and as not
/// approved where a later finalization has withdrawn the approval.
pub proof fn lemma_no_ticket_after_execution(
    state: State,
    vault: Address,
    index: u64,
    first_slot: u64,
    executor: Address,
    between: Seq<Step>,
    second_slot: u64,
    creator: Address,
    execution_hash: [u8; 32],
)
    requires
        apply(state, first_slot, consume(vault, index, executor)) is Ok,
    ensures
        ({
            let later = run(
                apply(state, first_slot, consume(vault, index, executor))->Ok_0,
                between,
            );
            let refusal = if later.locate(vault, index)->Ok_0.proposal.approved {
                GovernanceError::AlreadyExecuted
            } else {
                GovernanceError::NotApproved
            };
            &&& later.locate(vault, index) is Ok
            &&& later.locate(vault, index)->Ok_0.proposal.executed
            &&& apply(later, second_slot, mint(vault, index, creator, execution_hash)) == Err::<
                State,
                LedgerError,
            >(LedgerError::Rejected(refusal))
        }),
{
    let consumed = apply(state, first_slot, consume(vault, index, executor))->Ok_0;
    lemma_run_persists(consumed, between);
    let (config_key, proposal_key) = proposal_keys(state.program_id, vault, index)->Ok_0;
    let ticket_key = ExecutionTicket::address(state.program_id, proposal_key)->Some_0.0;
    assert(consumed.occupied(config_key));
    assert(consumed.occupied(proposal_key));
    assert(consumed.occupied(ticket_key));
}

/// The index that the next proposal of the config at `config_key` receives;
/// zero while no config lives there.
pub open spec fn next_index(state: State, config_key: Address) -> int {
    match state.config_at(config_key) {
        Some(config) => config.next_proposal_index as int,
        None => 0,
    }
}

/// Whether `step`, carried out on `state`, creates a proposal of the config
/// at `config_key`.
pub open spec fn creates_proposal(state: State, step: Step, config_key: Address) -> bool {
    &&& apply(state, step.slot, step.instruction) is Ok
    &&& state.resolve(step.instruction) matches Ok(Resolved::CreateProposal {
        governance_config,
        ..
    }) && governance_config == config_key
}

/// The proposal that `step` has created, given that it has created one: the
/// record that the step has put at the address of the new proposal.
pub open spec fn created_proposal(state: State, step: Step) -> Proposal {
    after(state, step).proposal_at(
        state.resolve(step.instruction)->Ok_0->CreateProposal_proposal,
    )->Some_0
}

/// The indices of the proposals of the config at `config_key` that `steps`
/// create from `state`, in the order of their creation.
pub open spec fn created_indices(state: State, steps: Seq<Step>, config_key: Address) -> Seq<u64>
    decreases steps.len(),
{
    if steps.len() == 0 {
        seq![]
    } else {
        let before = run(state, steps.drop_last());
        let earlier = created_indices(state, steps.drop_last(), config_key);
        if creates_proposal(before, steps.last(), config_key) {
            earlier.push(created_proposal(before, steps.last()).index)
        } else {
            earlier
        }
    }
}

/// A step that creates a proposal of a config gives it the index that the
/// config's counter held and moves the counter up by one. Every other step
/// leaves the counter as it was.
pub proof fn lemma_step_counts(state: State, step: Step, config_key: Address)
    ensures
        creates_proposal(state, step, config_key) ==> {
            &&& created_proposal(state, step).index == next_index(state, config_key)
            &&& created_proposal(state, step).governance == config_key
            &&& next_index(after(state, step), config_key) == next_index(state, config_key) + 1
        },
        !creates_proposal(state, step, config_key) ==> next_index(after(state, step), config_key)
            == next_index(state, config_key),
{
    if apply(state, step.slot, step.instruction) is Ok {
        match state.resolve(step.instruction)->Ok_0 {
            Resolved::InitializeGovernance { .. } => {},
            Resolved::CreateProposal { governance_config, proposal, .. } => {
                assert(after(state, step).occupied(proposal));
                assert(governance_config != proposal);
            },
            Resolved::CastVote { proposal, .. } => {
                assert(state.occupied(proposal));
            },
            Resolved::FinalizeProposal { proposal, .. } => {
                assert(state.occupied(proposal));
            },
            Resolved::CreateExecutionTicket { proposal, .. } => {
                assert(state.occupied(proposal));
            },
            Resolved::ConsumeExecutionTicket { proposal, .. } => {
                assert(state.occupied(proposal));
            },
        }
    }
}

/// The proposals of one config are numbered without gap or repeat: in every
/// history, the proposals created of the config receive, in order, the
/// index that the config's counter held at the start and the indices that
/// follow it, and the counter ends one above the last. A refused step
/// uses up no index.
pub proof fn lemma_indices_consecutive(state: State, steps: Seq<Step>, config_key: Address)
    ensures
        ({
            let created = created_indices(state, steps, config_key);
            &&& next_index(run(state, steps), config_key) == next_index(state, config_key)
                + created.len()
            &&& forall|k: int|
                0 <= k < created.len() ==> #[trigger] created[k] == next_index(state, config_key)
                    + k
        }),
    decreases steps.len(),
{
    if steps.len() > 0 {
        lemma_indices_consecutive(state, steps.drop_last(), config_key);
        lemma_step_counts(run(state, steps.drop_last()), steps.last(), config_key);
    }
}

/// In a store that holds no record at `config_key` yet, the proposals of
/// the config created there are numbered 0, 1, 2 and so on.
pub proof fn lemma_indices_count_from_zero(state: State, steps: Seq<Step>, config_key: Address)
    requires
        !state.occupied(config_key),
    ensures
        ({
            let created = created_indices(state, steps, config_key);
            forall|k: int| 0 <= k < created.len() ==> #[trigger] created[k] == k
        }),
{
    lemma_indices_consecutive(state, steps, config_key);
}

/// The yes tally (`support` true) or the no tally of the proposal at
/// `proposal_key`; zero while no proposal lives there.
pub open spec fn tally(state: State, proposal_key: Address, support: bool) -> int {
    match state.proposal_at(proposal_key) {
        Some(proposal) => if support {
            proposal.yes_votes as int
        } else {
            proposal.no_votes as int
        },
        None => 0,
    }
}

/// The weight that `step`, carried out on `state`, adds to the tally
/// `support` of the proposal at `proposal_key`: the weight of the vote if
/// the step is an accepted vote on that proposal with that choice, else zero.
pub open spec fn accepted_weight(
    state: State,
    step: Step,
    proposal_key: Address,
    support: bool,
) -> int {
    match state.resolve(step.instruction) {
        Ok(Resolved::CastVote { proposal, support_yes, weight, .. }) => if proposal
            == proposal_key && support_yes == support && apply(
            state,
            step.slot,
            step.instruction,
        ) is Ok {
            weight as int
        } else {
            0
        },
        _ => 0,
    }
}

/// The sum of the weights of the votes that the store accepts in `steps` for
/// the tally `support` of the proposal at `proposal_key`.
pub open spec fn accepted_weights(
    state: State,
    steps: Seq<Step>,
    proposal_key: Address,
    support: bool,
) -> int
    decreases steps.len(),
{
    if steps.len() == 0 {
        0
    } else {
        accepted_weights(state, steps.drop_last(), proposal_key, support) + accepted_weight(
            run(state, steps.drop_last()),
            steps.last(),
            proposal_key,
            support,
        )
    }
}

/// A step moves a tally by the weight that it adds to it, and by nothing
/// else.
pub proof fn lemma_step_tally(state: State, step: Step, proposal_key: Address, support: bool)
    ensures
        tally(after(state, step), proposal_key, support) == tally(state, proposal_key, support)
            + accepted_weight(state, step, proposal_key, support),
{
}

/// Tallies are conserved: through every history each tally of a proposal
/// grows by exactly the weights of the votes accepted for it. No accepted
/// weight is lost or counted twice, and nothing but an accepted vote moves a
/// tally.
pub proof fn lemma_tally_conserved(
    state: State,
    steps: Seq<Step>,
    proposal_key: Address,
    support: bool,
)
    ensures
        tally(run(state, steps), proposal_key, support) == tally(state, proposal_key, support)
            + accepted_weights(state, steps, proposal_key, support),
    decreases steps.len(),
{
    if steps.len() > 0 {
        lemma_tally_conserved(state, steps.drop_last(), proposal_key, support);
        lemma_step_tally(run(state, steps.drop_last()), steps.last(), proposal_key, support);
    }
}

/// The votes of a proposal are the accepted weights: through every history,
/// yes and no together grow by the sum of all weights accepted for the
/// proposal.
pub proof fn lemma_total_votes_conserved(state: State, steps: Seq<Step>, proposal_key: Address)
    requires
        state.proposal_at(proposal_key) is Some,
    ensures
        run(state, steps).proposal_at(proposal_key) is Some,
        run(state, steps).proposal_at(proposal_key)->Some_0.total_votes() == state.proposal_at(
            proposal_key,
        )->Some_0.total_votes() + accepted_weights(state, steps, proposal_key, true)
            + accepted_weights(state, steps, proposal_key, false),
{
    lemma_run_persists(state, steps);
    assert(state.occupied(proposal_key));
    lemma_tally_conserved(state, steps, proposal_key, true);
    lemma_tally_conserved(state, steps, proposal_key, false);
}

/// Votes are accepted inside the voting window only: at a clock value before
/// the first or after the last slot of the window every vote is refused, as
/// closed if it has a weight.
pub proof fn lemma_vote_outside_window_refused(
    proposal: Proposal,
    proposal_key: Address,
    voter: Address,
    bump: u8,
    slot: u64,
    support_yes: bool,
    weight: u64,
)
    requires
        slot < proposal.start_slot || slot > proposal.end_slot,
    ensures
        vote_cast(proposal, proposal_key, voter, bump, slot, support_yes, weight) is Err,
        weight > 0 ==> vote_cast(proposal, proposal_key, voter, bump, slot, support_yes, weight)
            == Err::<(Proposal, VoteRecord), GovernanceError>(GovernanceError::VotingClosed),
{
}

/// A proposal is decided after its voting window only: at every clock value
/// up to the last slot of the window, finalization is refused as too early.
pub proof fn lemma_finalize_inside_window_refused(
    config: GovernanceConfig,
    proposal: Proposal,
    slot: u64,
    total_voting_power: u64,
)
    requires
        slot <= proposal.end_slot,
    ensures
        proposal_finalized(config, proposal, slot, total_voting_power) == Err::<
            Proposal,
            GovernanceError,
        >(GovernanceError::VotingStillOpen),
{
}

/// The store enforces the window: it accepts no vote on a proposal at a
/// clock value outside the proposal's window, and no finalization at a clock
/// value inside it or before it.
pub proof fn lemma_store_enforces_window(
    state: State,
    slot: u64,
    vault: Address,
    index: u64,
    voter: Address,
    support_yes: bool,
    weight: u64,
    total_voting_power: u64,
)
    requires
        state.locate(vault, index) is Ok,
    ensures
        !state.locate(vault, index)->Ok_0.proposal.voting_open(slot) ==> apply(
            state,
            slot,
            vote(vault, index, voter, support_yes, weight),
        ) is Err,
        !state.locate(vault, index)->Ok_0.proposal.voting_ended(slot) ==> apply(
            state,
            slot,
            (Instruction::FinalizeProposal { vault, index, total_voting_power }),
        ) is Err,
{
}

/// Finalizing again changes nothing: once a proposal is finalized, a later
/// finalization leaves it as the first one left it or fails for want of
/// quorum. It succeeds where it is given no more voting power than the
/// first.
pub proof fn lemma_finalize_repeats(
    config: GovernanceConfig,
    proposal: Proposal,
    slot: u64,
    total_voting_power: u64,
    later_slot: u64,
    later_voting_power: u64,
)
    requires
        proposal_finalized(config, proposal, slot, total_voting_power) is Ok,
        slot <= later_slot,
    ensures
        ({
            let first = proposal_finalized(config, proposal, slot, total_voting_power);
            let second = proposal_finalized(
                config,
                first->Ok_0,
                later_slot,
                later_voting_power,
            );
            &&& second == first || second == Err::<Proposal, GovernanceError>(
                GovernanceError::NoQuorum,
            )
            &&& later_voting_power <= total_voting_power ==> second == first
        }),
{
    if later_voting_power <= total_voting_power {
        lemma_quorum_grows(later_voting_power, total_voting_power, config.quorum_bps);
    }
}

/// A quorum asks for no fewer votes when more voting power exists.
pub proof fn lemma_quorum_grows(less: u64, more: u64, quorum_bps: u16)
    requires
        less <= more,
    ensures
        quorum_votes(less, quorum_bps) <= quorum_votes(more, quorum_bps),
{
    assert(less * quorum_bps <= more * quorum_bps) by (nonlinear_arith)
        requires
            less <= more,
    ;
}

/// Whether every step of `steps` arrives after slot `slot`.
pub open spec fn all_after(steps: Seq<Step>, slot: u64) -> bool {
    forall|i: int| 0 <= i < steps.len() ==> (#[trigger] steps[i]).slot > slot
}

/// After the window the tallies are frozen: a history whose steps all arrive
/// after the last slot of a proposal's window leaves both tallies of the
/// proposal as they were.
pub proof fn lemma_tallies_frozen_after_window(
    state: State,
    steps: Seq<Step>,
    proposal_key: Address,
)
    requires
        state.proposal_at(proposal_key) is Some,
        all_after(steps, state.proposal_at(proposal_key)->Some_0.end_slot),
    ensures
        run(state, steps).proposal_at(proposal_key) is Some,
        run(state, steps).proposal_at(proposal_key)->Some_0.yes_votes == state.proposal_at(
            proposal_key,
        )->Some_0.yes_votes,
        run(state, steps).proposal_at(proposal_key)->Some_0.no_votes == state.proposal_at(
            proposal_key,
        )->Some_0.no_votes,
    decreases steps.len(),
{
    assert(state.occupied(proposal_key));
    if steps.len() > 0 {
        let earlier = steps.drop_last();
        let last = steps.last();
        assert forall|i: int| 0 <= i < earlier.len() implies (#[trigger] earlier[i]).slot
            > state.proposal_at(proposal_key)->Some_0.end_slot by {
            assert(earlier[i] == steps[i]);
        }
        assert(last == steps[steps.len() - 1]);
        lemma_tallies_frozen_after_window(state, earlier, proposal_key);
        lemma_run_persists(state, earlier);
        let before = run(state, earlier);
        lemma_step_tally(before, last, proposal_key, true);
        lemma_step_tally(before, last, proposal_key, false);
        lemma_apply_persists(before, last.slot, last.instruction);
        assert(before.occupied(proposal_key));
    }
}

/// Whether the proposal at `proposal_key` is approved exactly if its tallies
/// meet the threshold of its config.
pub open spec fn decided(state: State, proposal_key: Address) -> bool {
    &&& state.proposal_at(proposal_key) is Some
    &&& state.config_at(state.proposal_at(proposal_key)->Some_0.governance) is Some
    &&& state.proposal_at(proposal_key)->Some_0.approved == (yes_ratio_bps(
        state.proposal_at(proposal_key)->Some_0.yes_votes,
        state.proposal_at(proposal_key)->Some_0.no_votes,
    ) >= state.config_at(
        state.proposal_at(proposal_key)->Some_0.governance,
    )->Some_0.pass_threshold_bps)
}

/// A finalization that the store accepts decides the proposal.
pub proof fn lemma_finalize_decides(
    state: State,
    slot: u64,
    governance_config: Address,
    proposal: Address,
    total_voting_power: u64,
)
    requires
        state.finalize_proposal(slot, governance_config, proposal, total_voting_power) is Ok,
    ensures
        decided(
            state.finalize_proposal(slot, governance_config, proposal, total_voting_power)->Ok_0,
            proposal,
        ),
{
    assert(governance_config != proposal);
}

/// A step after the window leaves a decided proposal as it is: its tallies,
/// its approval, and that it is decided.
pub proof fn lemma_step_keeps_decision(state: State, step: Step, proposal_key: Address)
    requires
        decided(state, proposal_key),
        step.slot > state.proposal_at(proposal_key)->Some_0.end_slot,
    ensures
        decided(after(state, step), proposal_key),
        after(state, step).proposal_at(proposal_key)->Some_0 == (Proposal {
            executed: after(state, step).proposal_at(proposal_key)->Some_0.executed,
            ..state.proposal_at(proposal_key)->Some_0
        }),
{
    let before = state.proposal_at(proposal_key)->Some_0;
    lemma_apply_persists(state, step.slot, step.instruction);
    assert(state.occupied(proposal_key));
    assert(state.occupied(before.governance));
    lemma_step_tally(state, step, proposal_key, true);
    lemma_step_tally(state, step, proposal_key, false);
}

/// A decision stands while the clock stays past the window: a history whose
/// steps all arrive after the last slot of a decided proposal's window
/// changes neither its tallies nor its approval, however often and with
/// whatever voting power it is finalized again.
pub proof fn lemma_decision_stands(state: State, steps: Seq<Step>, proposal_key: Address)
    requires
        decided(state, proposal_key),
        all_after(steps, state.proposal_at(proposal_key)->Some_0.end_slot),
    ensures
        decided(run(state, steps), proposal_key),
        run(state, steps).proposal_at(proposal_key)->Some_0 == (Proposal {
            executed: run(state, steps).proposal_at(proposal_key)->Some_0.executed,
            ..state.proposal_at(proposal_key)->Some_0
        }),
    decreases steps.len(),
{
    if steps.len() > 0 {
        let earlier = steps.drop_last();
        let last = steps.last();
        assert forall|i: int| 0 <= i < earlier.len() implies (#[trigger] earlier[i]).slot
            > state.proposal_at(proposal_key)->Some_0.end_slot by {
            assert(earlier[i] == steps[i]);
        }
        assert(last == steps[steps.len() - 1]);
        lemma_decision_stands(state, earlier, proposal_key);
        lemma_step_keeps_decision(run(state, earlier), last, proposal_key);
    }
}

/// Approval gates the ticket: for a proposal that is not approved no ticket
/// is minted and none is consumed, whatever its tallies are.
pub proof fn lemma_unapproved_gets_no_ticket(
    config: GovernanceConfig,
    config_key: Address,
    proposal: Proposal,
    proposal_key: Address,
    creator: Address,
    bump: u8,
    execution_hash: [u8; 32],
    ticket: ExecutionTicket,
)
    requires
        !proposal.approved,
    ensures
        ticket_created(config, config_key, proposal, proposal_key, creator, bump, execution_hash)
            == Err::<ExecutionTicket, GovernanceError>(GovernanceError::NotApproved),
        ticket_consumed(proposal, ticket) is Err,
        !ticket.consumed ==> ticket_consumed(proposal, ticket) == Err::<
            (Proposal, ExecutionTicket),
            GovernanceError,
        >(GovernanceError::NotApproved),
{
}

/// The store gates the ticket: while a proposal in it is not approved, it
/// refuses to mint the proposal's ticket and to consume it.
pub proof fn lemma_store_gates_ticket(
    state: State,
    slot: u64,
    vault: Address,
    index: u64,
    creator: Address,
    execution_hash: [u8; 32],
    executor: Address,
)
    requires
        state.locate(vault, index) is Ok,
        !state.locate(vault, index)->Ok_0.proposal.approved,
    ensures
        apply(state, slot, mint(vault, index, creator, execution_hash)) is Err,
        apply(state, slot, consume(vault, index, executor)) is Err,
{
}

/// Whether `proposal` fits the store: its config exists, its index lies
/// below the config's counter, and its window has the config's length.
pub open spec fn proposal_fits(state: State, proposal: Proposal) -> bool {
    &&& state.config_at(proposal.governance) is Some
    &&& proposal.index < state.config_at(proposal.governance)->Some_0.next_proposal_index
    &&& proposal.end_slot == proposal.start_slot + state.config_at(
        proposal.governance,
    )->Some_0.voting_period_slots
}

/// Whether `vote` fits the store: its proposal exists and it has a weight.
pub open spec fn vote_fits(state: State, vote: VoteRecord) -> bool {
    &&& state.proposal_at(vote.proposal) is Some
    &&& vote.weight > 0
}

/// Whether `ticket` fits the store: its proposal exists and belongs to the
/// config that the ticket names, the ticket names that config's vault, and
/// the proposal of a consumed ticket is executed.
pub open spec fn ticket_fits(state: State, ticket: ExecutionTicket) -> bool {
    &&& state.proposal_at(ticket.proposal) is Some
    &&& state.proposal_at(ticket.proposal)->Some_0.governance == ticket.governance
    &&& state.config_at(ticket.governance) is Some
    &&& state.config_at(ticket.governance)->Some_0.vault == ticket.vault
    &&& ticket.consumed ==> state.proposal_at(ticket.proposal)->Some_0.executed
}

/// Whether the records of `state` fit together: every config has valid
/// thresholds, every record below a config has the parents it names, and
/// no two proposals of a config share an index.
pub open spec fn consistent(state: State) -> bool {
    &&& forall|key: Address| #[trigger]
        state.config_at(key) is Some ==> state.config_at(key)->Some_0.wf()
    &&& forall|key: Address| #[trigger]
        state.proposal_at(key) is Some ==> proposal_fits(state, state.proposal_at(key)->Some_0)
    &&& forall|key: Address| #[trigger]
        state.vote_at(key) is Some ==> vote_fits(state, state.vote_at(key)->Some_0)
    &&& forall|key: Address| #[trigger]
        state.ticket_at(key) is Some ==> ticket_fits(state, state.ticket_at(key)->Some_0)
    &&& forall|a: Address, b: Address|
        #![trigger state.proposal_at(a), state.proposal_at(b)]
        a != b && state.proposal_at(a) is Some && state.proposal_at(b) is Some
            && state.proposal_at(a)->Some_0.governance == state.proposal_at(b)->Some_0.governance
            ==> state.proposal_at(a)->Some_0.index != state.proposal_at(b)->Some_0.index
}

/// An empty store is consistent.
pub proof fn lemma_empty_consistent(program_id: Address)
    ensures
        consistent(State { program_id, accounts: Map::empty() }),
{
}

/// Whatever addresses a request names, carrying it out on a consistent store
/// leaves a consistent store.
pub proof fn lemma_execute_consistent(state: State, slot: u64, resolved: Resolved)
    requires
        consistent(state),
        state.execute(slot, resolved) is Ok,
    ensures
        consistent(state.execute(slot, resolved)->Ok_0),
{
    let next = state.execute(slot, resolved)->Ok_0;
    lemma_execute_persists(state, slot, resolved);
    assert forall|key: Address| #[trigger] next.config_at(key) is Some implies next.config_at(
        key,
    )->Some_0.wf() by {
        if state.config_at(key) is Some {
            assert(state.occupied(key));
        }
    }
    assert forall|key: Address| #[trigger] next.proposal_at(key) is Some implies proposal_fits(
        next,
        next.proposal_at(key)->Some_0,
    ) by {
        if state.proposal_at(key) is Some {
            assert(state.occupied(key));
            assert(state.occupied(state.proposal_at(key)->Some_0.governance));
        }
    }
    assert forall|key: Address| #[trigger] next.vote_at(key) is Some implies vote_fits(
        next,
        next.vote_at(key)->Some_0,
    ) by {
        if state.vote_at(key) is Some {
            assert(state.occupied(key));
            assert(state.occupied(state.vote_at(key)->Some_0.proposal));
        }
    }
    assert forall|key: Address| #[trigger] next.ticket_at(key) is Some implies ticket_fits(
        next,
        next.ticket_at(key)->Some_0,
    ) by {
        if state.ticket_at(key) is Some {
            let ticket = state.ticket_at(key)->Some_0;
            assert(state.occupied(key));
            assert(state.occupied(ticket.proposal));
            assert(state.occupied(ticket.governance));
        }
    }
    assert forall|a: Address, b: Address|
        #![trigger next.proposal_at(a), next.proposal_at(b)]
        a != b && next.proposal_at(a) is Some && next.proposal_at(b) is Some && next.proposal_at(
            a,
        )->Some_0.governance == next.proposal_at(b)->Some_0.governance implies next.proposal_at(
        a,
    )->Some_0.index != next.proposal_at(b)->Some_0.index by {
        if state.proposal_at(a) is Some {
            assert(state.occupied(a));
        }
        if state.proposal_at(b) is Some {
            assert(state.occupied(b));
        }
    }
}

/// The records fit together after every history that starts from a
/// consistent store: the thresholds stay valid though they are checked only
/// when a config is created, no record loses a parent, and the proposals of
/// a config keep distinct indices below its counter.
pub proof fn lemma_run_consistent(state: State, steps: Seq<Step>)
    requires
        consistent(state),
    ensures
        consistent(run(state, steps)),
    decreases steps.len(),
{
    if steps.len() > 0 {
        lemma_run_consistent(state, steps.drop_last());
        let before = run(state, steps.drop_last());
        let last = steps.last();
        if apply(before, last.slot, last.instruction) is Ok {
            lemma_execute_consistent(before, last.slot, before.resolve(last.instruction)->Ok_0);
        }
    }
}

} // verus!
