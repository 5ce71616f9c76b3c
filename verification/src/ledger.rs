//! A store of governance records keyed by address, and the six instructions
//! carried out against it.
//!
//! The store holds at most one record per address and never removes one.
//! Creating a record at an address that is taken fails. Since the address of
//! a vote follows from its proposal and its voter, and the address of a
//! ticket from its proposal, this alone is what keeps a voter from voting
//! twice and a proposal from getting two tickets.

use vstd::prelude::*;
use crate::accounts::{
    CastVote, ConsumeExecutionTicket, CreateExecutionTicket, CreateProposal, FinalizeProposal,
    InitializeGovernance,
};
use crate::address::Address;
use crate::error::LedgerError;
use crate::instructions::{
    cast_vote_at, consume_execution_ticket, create_execution_ticket, create_proposal_at,
    finalize_proposal_at, initialize_governance,
};
use crate::state::{ExecutionTicket, GovernanceConfig, Proposal, VoteRecord};
use crate::transition::{
    after, outcome, proposal_keys, run, Instruction, Located, Record, Resolved, State, Step,
};

verus! {

/// One slot of the store: an address and the record that lives there.
struct Entry {
    key: Address,
    record: Record,
}

/// The store. Its view is a [`State`].
pub struct Ledger {
    program_id: Address,
    entries: Vec<Entry>,
}

/// The place of `key` among `entries`.
spec fn position(entries: Seq<Entry>, key: Address) -> int {
    choose|i: int| 0 <= i < entries.len() && entries[i].key == key
}

/// Whether `key` is the key of one of `entries`.
spec fn present(entries: Seq<Entry>, key: Address) -> bool {
    exists|i: int| 0 <= i < entries.len() && entries[i].key == key
}

/// No key occurs twice among `entries`.
spec fn distinct_keys(entries: Seq<Entry>) -> bool {
    forall|i: int, j: int|
        0 <= i < j < entries.len() ==> entries[i].key != entries[j].key
}

impl View for Ledger {
    type V = State;

    closed spec fn view(&self) -> State {
        State {
            program_id: self.program_id,
            accounts: Map::new(
                |key: Address| present(self.entries@, key),
                |key: Address| self.entries@[position(self.entries@, key)].record,
            ),
        }
    }
}

impl Ledger {
    /// No address holds two records.
    pub closed spec fn wf(&self) -> bool {
        distinct_keys(self.entries@)
    }

    /// An empty store for the records of `program_id`.
    pub fn new(program_id: Address) -> (ledger: Ledger)
        ensures
            ledger.wf(),
            ledger@ == (State { program_id, accounts: Map::empty() }),
    {
        let ledger = Ledger { program_id, entries: Vec::new() };
        assert(ledger@.accounts =~= Map::empty());
        ledger
    }

    /// The program that owns the records.
    pub fn program_id(&self) -> (id: Address)
        ensures
            id == self@.program_id,
    {
        self.program_id
    }

    /// The number of records stored.
    pub fn len(&self) -> (n: usize)
        requires
            self.wf(),
        ensures
            n == self@.accounts.len(),
            self@.accounts.dom().finite(),
    {
        proof {
            self.lemma_size();
        }
        self.entries.len()
    }

    proof fn lemma_size(&self)
        requires
            self.wf(),
        ensures
            self@.accounts.dom().finite(),
            self@.accounts.len() == self.entries@.len(),
    {
        lemma_keys_counted(self.entries@);
        assert(self@.accounts.dom() =~= keys_of(self.entries@));
    }

    /// The place of the record at `key`, if there is one.
    fn find(&self, key: &Address) -> (place: Option<usize>)
        requires
            self.wf(),
        ensures
            match place {
                Some(i) => i < self.entries@.len() && self.entries@[i as int].key == *key
                    && self@.accounts.contains_key(*key) && self@.accounts[*key]
                    == self.entries@[i as int].record,
                None => !self@.accounts.contains_key(*key),
            },
    {
        let mut i: usize = 0;
        while i < self.entries.len()
            invariant
                self.wf(),
                i <= self.entries@.len(),
                forall|j: int| 0 <= j < i ==> self.entries@[j].key != *key,
            decreases self.entries@.len() - i,
        {
            if self.entries[i].key == *key {
                proof {
                    assert(present(self.entries@, *key));
                    let j = position(self.entries@, *key);
                    assert(j == i);
                }
                return Some(i);
            }
            i += 1;
        }
        None
    }

    /// The record at `key`, if there is one.
    pub fn get(&self, key: &Address) -> (record: Option<Record>)
        requires
            self.wf(),
        ensures
            record == (if self@.occupied(*key) {
                Some(self@.accounts[*key])
            } else {
                None
            }),
    {
        match self.find(key) {
            Some(i) => Some(self.entries[i].record),
            None => None,
        }
    }

    /// Writes `record` at `key`, in place of the record that was there if
    /// there was one.
    fn put(&mut self, key: Address, record: Record)
        requires
            old(self).wf(),
        ensures
            final(self).wf(),
            final(self)@ == old(self)@.with(key, record),
    {
        match self.find(&key) {
            Some(i) => {
                let ghost before = self.entries@;
                self.entries[i] = Entry { key, record };
                assert forall|k: Address| present(before, k) == present(self.entries@, k) by {
                    if present(before, k) {
                        let j = position(before, k);
                        assert(self.entries@[j].key == k);
                    }
                    if present(self.entries@, k) {
                        let j = position(self.entries@, k);
                        assert(before[j].key == k);
                    }
                }
                assert(self@.accounts =~= old(self)@.accounts.insert(key, record));
            },
            None => {
                let ghost before = self.entries@;
                self.entries.push(Entry { key, record });
                assert(self.entries@[before.len() as int].key == key);
                assert forall|k: Address| present(self.entries@, k) == (present(before, k) || k
                    == key) by {
                    if present(before, k) {
                        let j = position(before, k);
                        assert(self.entries@[j].key == k);
                    }
                }
                assert(self@.accounts =~= old(self)@.accounts.insert(key, record));
            },
        }
    }

    /// The addresses of proposal `index` of `vault` and of its config.
    fn proposal_keys(&self, vault: &Address, index: u64) -> (res: Result<
        (Address, Address),
        LedgerError,
    >)
        ensures
            res == proposal_keys(self@.program_id, *vault, index),
    {
        let config_key: Address = match GovernanceConfig::find_address(&self.program_id, vault) {
            Some((key, _)) => key,
            None => {
                return Err(LedgerError::NoAddress);
            },
        };
        match Proposal::find_address(&self.program_id, &config_key, index) {
            Some((proposal_key, _)) => Ok((config_key, proposal_key)),
            None => Err(LedgerError::NoAddress),
        }
    }

    /// The config of `vault` and its address.
    pub fn find_config(&self, vault: &Address) -> (res: Result<
        (Address, GovernanceConfig),
        LedgerError,
    >)
        requires
            self.wf(),
        ensures
            res == self@.find_config(*vault),
    {
        let config_key: Address = match GovernanceConfig::find_address(&self.program_id, vault) {
            Some((key, _)) => key,
            None => {
                return Err(LedgerError::NoAddress);
            },
        };
        match self.get(&config_key) {
            Some(Record::Config(config)) => Ok((config_key, config)),
            _ => Err(LedgerError::AccountMissing),
        }
    }

    /// Proposal `index` of `vault`, with its config.
    pub fn locate(&self, vault: &Address, index: u64) -> (res: Result<Located, LedgerError>)
        requires
            self.wf(),
        ensures
            res == self@.locate(*vault, index),
    {
        let (config_key, proposal_key) = match self.proposal_keys(vault, index) {
            Ok(keys) => keys,
            Err(e) => {
                return Err(e);
            },
        };
        match (self.get(&config_key), self.get(&proposal_key)) {
            (Some(Record::Config(config)), Some(Record::Proposal(proposal))) => Ok(
                Located { config_key, config, proposal_key, proposal },
            ),
            _ => Err(LedgerError::AccountMissing),
        }
    }

    /// The vote of `voter` on proposal `index` of `vault`.
    pub fn find_vote(&self, vault: &Address, index: u64, voter: &Address) -> (res: Result<
        VoteRecord,
        LedgerError,
    >)
        requires
            self.wf(),
        ensures
            res == self@.find_vote(*vault, index, *voter),
    {
        let (_, proposal_key) = match self.proposal_keys(vault, index) {
            Ok(keys) => keys,
            Err(e) => {
                return Err(e);
            },
        };
        let vote_key: Address = match VoteRecord::find_address(
            &self.program_id,
            &proposal_key,
            voter,
        ) {
            Some((key, _)) => key,
            None => {
                return Err(LedgerError::NoAddress);
            },
        };
        match self.get(&vote_key) {
            Some(Record::Vote(vote)) => Ok(vote),
            _ => Err(LedgerError::AccountMissing),
        }
    }

    /// The ticket of proposal `index` of `vault`.
    pub fn find_ticket(&self, vault: &Address, index: u64) -> (res: Result<
        ExecutionTicket,
        LedgerError,
    >)
        requires
            self.wf(),
        ensures
            res == self@.find_ticket(*vault, index),
    {
        let (_, proposal_key) = match self.proposal_keys(vault, index) {
            Ok(keys) => keys,
            Err(e) => {
                return Err(e);
            },
        };
        let ticket_key: Address = match ExecutionTicket::find_address(
            &self.program_id,
            &proposal_key,
        ) {
            Some((key, _)) => key,
            None => {
                return Err(LedgerError::NoAddress);
            },
        };
        match self.get(&ticket_key) {
            Some(Record::Ticket(ticket)) => Ok(ticket),
            _ => Err(LedgerError::AccountMissing),
        }
    }

    /// Resolves the keys in `instruction` to addresses.
    pub fn resolve(&self, instruction: &Instruction) -> (res: Result<Resolved, LedgerError>)
        requires
            self.wf(),
        ensures
            res == self@.resolve(*instruction),
    {
        match *instruction {
            Instruction::InitializeGovernance {
                authority,
                vault,
                quorum_bps,
                pass_threshold_bps,
                voting_period_slots,
            } => match GovernanceConfig::find_address(&self.program_id, &vault) {
                None => Err(LedgerError::NoAddress),
                Some((governance_config, bump)) => Ok(
                    Resolved::InitializeGovernance {
                        governance_config,
                        bump,
                        authority,
                        vault,
                        quorum_bps,
                        pass_threshold_bps,
                        voting_period_slots,
                    },
                ),
            },
            Instruction::CreateProposal { vault, creator, strategy_hash, metadata_uri } => {
                let (governance_config, config) = match self.find_config(&vault) {
                    Ok(found) => found,
                    Err(e) => {
                        return Err(e);
                    },
                };
                match Proposal::find_address(
                    &self.program_id,
                    &governance_config,
                    config.next_proposal_index,
                ) {
                    None => Err(LedgerError::NoAddress),
                    Some((proposal, bump)) => Ok(
                        Resolved::CreateProposal {
                            governance_config,
                            proposal,
                            bump,
                            creator,
                            strategy_hash,
                            metadata_uri,
                        },
                    ),
                }
            },
            Instruction::CastVote { vault, index, voter, support_yes, weight } => {
                let (governance_config, proposal) = match self.proposal_keys(&vault, index) {
                    Ok(keys) => keys,
                    Err(e) => {
                        return Err(e);
                    },
                };
                match VoteRecord::find_address(&self.program_id, &proposal, &voter) {
                    None => Err(LedgerError::NoAddress),
                    Some((vote_record, bump)) => Ok(
                        Resolved::CastVote {
                            governance_config,
                            proposal,
                            vote_record,
                            bump,
                            voter,
                            support_yes,
                            weight,
                        },
                    ),
                }
            },
            Instruction::FinalizeProposal { vault, index, total_voting_power } => {
                match self.proposal_keys(&vault, index) {
                    Err(e) => Err(e),
                    Ok((governance_config, proposal)) => Ok(
                        Resolved::FinalizeProposal {
                            governance_config,
                            proposal,
                            total_voting_power,
                        },
                    ),
                }
            },
            Instruction::CreateExecutionTicket { vault, index, creator, execution_hash } => {
                let (governance_config, proposal) = match self.proposal_keys(&vault, index) {
                    Ok(keys) => keys,
                    Err(e) => {
                        return Err(e);
                    },
                };
                match ExecutionTicket::find_address(&self.program_id, &proposal) {
                    None => Err(LedgerError::NoAddress),
                    Some((execution_ticket, bump)) => Ok(
                        Resolved::CreateExecutionTicket {
                            governance_config,
                            proposal,
                            execution_ticket,
                            bump,
                            creator,
                            execution_hash,
                        },
                    ),
                }
            },
            Instruction::ConsumeExecutionTicket { vault, index, executor } => {
                let (governance_config, proposal) = match self.proposal_keys(&vault, index) {
                    Ok(keys) => keys,
                    Err(e) => {
                        return Err(e);
                    },
                };
                match ExecutionTicket::find_address(&self.program_id, &proposal) {
                    None => Err(LedgerError::NoAddress),
                    Some((execution_ticket, _)) => Ok(
                        Resolved::ConsumeExecutionTicket {
                            governance_config,
                            proposal,
                            execution_ticket,
                            executor,
                        },
                    ),
                }
            },
        }
    }

    /// The config at `key`, if a config is stored there.
    fn config_at(&self, key: &Address) -> (config: Option<GovernanceConfig>)
        requires
            self.wf(),
        ensures
            config == self@.config_at(*key),
    {
        match self.get(key) {
            Some(Record::Config(config)) => Some(config),
            _ => None,
        }
    }

    /// The proposal at `key`, if a proposal is stored there.
    fn proposal_at(&self, key: &Address) -> (proposal: Option<Proposal>)
        requires
            self.wf(),
        ensures
            proposal == self@.proposal_at(*key),
    {
        match self.get(key) {
            Some(Record::Proposal(proposal)) => Some(proposal),
            _ => None,
        }
    }

    /// The ticket at `key`, if a ticket is stored there.
    fn ticket_at(&self, key: &Address) -> (ticket: Option<ExecutionTicket>)
        requires
            self.wf(),
        ensures
            ticket == self@.ticket_at(*key),
    {
        match self.get(key) {
            Some(Record::Ticket(ticket)) => Some(ticket),
            _ => None,
        }
    }

    fn initialize_governance(
        &mut self,
        governance_config: Address,
        bump: u8,
        authority: Address,
        vault: Address,
        quorum_bps: u16,
        pass_threshold_bps: u16,
        voting_period_slots: u64,
    ) -> (res: Result<(), LedgerError>)
        requires
            old(self).wf(),
        ensures
            final(self).wf(),
            match old(self)@.initialize_governance(
                governance_config,
                bump,
                authority,
                vault,
                quorum_bps,
                pass_threshold_bps,
                voting_period_slots,
            ) {
                Ok(state) => res is Ok && final(self)@ == state,
                Err(e) => res == Err::<(), LedgerError>(e) && final(self)@ == old(self)@,
            },
    {
        if self.get(&governance_config).is_some() {
            return Err(LedgerError::AccountInUse);
        }
        let mut accounts = InitializeGovernance { governance_config: None, vault, authority, bump };
        match initialize_governance(
            &mut accounts,
            quorum_bps,
            pass_threshold_bps,
            voting_period_slots,
        ) {
            Err(e) => Err(LedgerError::Rejected(e)),
            Ok(()) => {
                self.put(governance_config, Record::Config(accounts.governance_config.unwrap()));
                Ok(())
            },
        }
    }

    fn create_proposal(
        &mut self,
        slot: u64,
        governance_config: Address,
        proposal: Address,
        bump: u8,
        creator: Address,
        strategy_hash: [u8; 32],
        metadata_uri: [u8; 96],
    ) -> (res: Result<(), LedgerError>)
        requires
            old(self).wf(),
        ensures
            final(self).wf(),
            match old(self)@.create_proposal(
                slot,
                governance_config,
                proposal,
                bump,
                creator,
                strategy_hash,
                metadata_uri,
            ) {
                Ok(state) => res is Ok && final(self)@ == state,
                Err(e) => res == Err::<(), LedgerError>(e) && final(self)@ == old(self)@,
            },
    {
        let config: GovernanceConfig = match self.config_at(&governance_config) {
            Some(config) => config,
            None => {
                return Err(LedgerError::AccountMissing);
            },
        };
        if self.get(&proposal).is_some() {
            return Err(LedgerError::AccountInUse);
        }
        let mut accounts = CreateProposal {
            governance_config: config,
            governance_config_key: governance_config,
            proposal: None,
            creator,
            bump,
        };
        match create_proposal_at(&mut accounts, slot, strategy_hash, metadata_uri) {
            Err(e) => Err(LedgerError::Rejected(e)),
            Ok(()) => {
                self.put(governance_config, Record::Config(accounts.governance_config));
                self.put(proposal, Record::Proposal(accounts.proposal.unwrap()));
                Ok(())
            },
        }
    }

    fn cast_vote(
        &mut self,
        slot: u64,
        governance_config: Address,
        proposal: Address,
        vote_record: Address,
        bump: u8,
        voter: Address,
        support_yes: bool,
        weight: u64,
    ) -> (res: Result<(), LedgerError>)
        requires
            old(self).wf(),
        ensures
            final(self).wf(),
            match old(self)@.cast_vote(
                slot,
                governance_config,
                proposal,
                vote_record,
                bump,
                voter,
                support_yes,
                weight,
            ) {
                Ok(state) => res is Ok && final(self)@ == state,
                Err(e) => res == Err::<(), LedgerError>(e) && final(self)@ == old(self)@,
            },
    {
        let (config, voted_on) = match (
            self.config_at(&governance_config),
            self.proposal_at(&proposal),
        ) {
            (Some(config), Some(voted_on)) => (config, voted_on),
            _ => {
                return Err(LedgerError::AccountMissing);
            },
        };
        if voted_on.governance != governance_config {
            return Err(LedgerError::WrongParent);
        }
        if self.get(&vote_record).is_some() {
            return Err(LedgerError::AccountInUse);
        }
        let mut accounts = CastVote {
            governance_config: config,
            proposal: voted_on,
            proposal_key: proposal,
            vote_record: None,
            voter,
            bump,
        };
        match cast_vote_at(&mut accounts, slot, support_yes, weight) {
            Err(e) => Err(LedgerError::Rejected(e)),
            Ok(()) => {
                self.put(proposal, Record::Proposal(accounts.proposal));
                self.put(vote_record, Record::Vote(accounts.vote_record.unwrap()));
                Ok(())
            },
        }
    }

    fn finalize_proposal(
        &mut self,
        slot: u64,
        governance_config: Address,
        proposal: Address,
        total_voting_power: u64,
    ) -> (res: Result<(), LedgerError>)
        requires
            old(self).wf(),
        ensures
            final(self).wf(),
            match old(self)@.finalize_proposal(
                slot,
                governance_config,
                proposal,
                total_voting_power,
            ) {
                Ok(state) => res is Ok && final(self)@ == state,
                Err(e) => res == Err::<(), LedgerError>(e) && final(self)@ == old(self)@,
            },
    {
        let (config, decided) = match (
            self.config_at(&governance_config),
            self.proposal_at(&proposal),
        ) {
            (Some(config), Some(decided)) => (config, decided),
            _ => {
                return Err(LedgerError::AccountMissing);
            },
        };
        if decided.governance != governance_config {
            return Err(LedgerError::WrongParent);
        }
        let mut accounts = FinalizeProposal { governance_config: config, proposal: decided };
        match finalize_proposal_at(&mut accounts, slot, total_voting_power) {
            Err(e) => Err(LedgerError::Rejected(e)),
            Ok(()) => {
                self.put(proposal, Record::Proposal(accounts.proposal));
                Ok(())
            },
        }
    }

    fn create_execution_ticket(
        &mut self,
        governance_config: Address,
        proposal: Address,
        execution_ticket: Address,
        bump: u8,
        creator: Address,
        execution_hash: [u8; 32],
    ) -> (res: Result<(), LedgerError>)
        requires
            old(self).wf(),
        ensures
            final(self).wf(),
            match old(self)@.create_execution_ticket(
                governance_config,
                proposal,
                execution_ticket,
                bump,
                creator,
                execution_hash,
            ) {
                Ok(state) => res is Ok && final(self)@ == state,
                Err(e) => res == Err::<(), LedgerError>(e) && final(self)@ == old(self)@,
            },
    {
        let (config, approved) = match (
            self.config_at(&governance_config),
            self.proposal_at(&proposal),
        ) {
            (Some(config), Some(approved)) => (config, approved),
            _ => {
                return Err(LedgerError::AccountMissing);
            },
        };
        if approved.governance != governance_config {
            return Err(LedgerError::WrongParent);
        }
        let mut accounts = CreateExecutionTicket {
            governance_config: config,
            governance_config_key: governance_config,
            proposal: approved,
            proposal_key: proposal,
            execution_ticket: None,
            creator,
            bump,
        };
        match create_execution_ticket(&mut accounts, execution_hash) {
            Err(e) => Err(LedgerError::Rejected(e)),
            Ok(()) => {
                if self.get(&execution_ticket).is_some() {
                    return Err(LedgerError::AccountInUse);
                }
                self.put(execution_ticket, Record::Ticket(accounts.execution_ticket.unwrap()));
                Ok(())
            },
        }
    }

    fn consume_execution_ticket(
        &mut self,
        governance_config: Address,
        proposal: Address,
        execution_ticket: Address,
        executor: Address,
    ) -> (res: Result<(), LedgerError>)
        requires
            old(self).wf(),
        ensures
            final(self).wf(),
            match old(self)@.consume_execution_ticket(
                governance_config,
                proposal,
                execution_ticket,
            ) {
                Ok(state) => res is Ok && final(self)@ == state,
                Err(e) => res == Err::<(), LedgerError>(e) && final(self)@ == old(self)@,
            },
    {
        let (config, approved, ticket) = match (
            self.config_at(&governance_config),
            self.proposal_at(&proposal),
            self.ticket_at(&execution_ticket),
        ) {
            (Some(config), Some(approved), Some(ticket)) => (config, approved, ticket),
            _ => {
                return Err(LedgerError::AccountMissing);
            },
        };
        if approved.governance != governance_config || ticket.proposal != proposal {
            return Err(LedgerError::WrongParent);
        }
        let mut accounts = ConsumeExecutionTicket {
            governance_config: config,
            proposal: approved,
            execution_ticket: ticket,
            executor,
        };
        match consume_execution_ticket(&mut accounts) {
            Err(e) => Err(LedgerError::Rejected(e)),
            Ok(()) => {
                self.put(proposal, Record::Proposal(accounts.proposal));
                self.put(execution_ticket, Record::Ticket(accounts.execution_ticket));
                Ok(())
            },
        }
    }

    /// Carries out `resolved` at clock value `slot` on the records at the
    /// addresses it names. A refused request leaves the store as it was.
    ///
    /// The addresses are taken as they are handed in. The store keeps one
    /// record per address and reads a record only under the parent it
    /// names, but nothing here ties the address of a vote record to its
    /// voter, or the address of a ticket to its proposal: handed two
    /// addresses, it records two votes of one voter. One vote per voter and
    /// one ticket per proposal hold where the addresses follow from the
    /// keys, as [`Ledger::resolve`] makes them and [`Ledger::process`] uses
    /// them.
    pub fn execute(&mut self, slot: u64, resolved: &Resolved) -> (res: Result<(), LedgerError>)
        requires
            old(self).wf(),
        ensures
            final(self).wf(),
            match old(self)@.execute(slot, *resolved) {
                Ok(state) => res == Ok::<(), LedgerError>(()) && final(self)@ == state,
                Err(e) => res == Err::<(), LedgerError>(e) && final(self)@ == old(self)@,
            },
    {
        let res = match *resolved {
            Resolved::InitializeGovernance {
                governance_config,
                bump,
                authority,
                vault,
                quorum_bps,
                pass_threshold_bps,
                voting_period_slots,
            } => self.initialize_governance(
                governance_config,
                bump,
                authority,
                vault,
                quorum_bps,
                pass_threshold_bps,
                voting_period_slots,
            ),
            Resolved::CreateProposal {
                governance_config,
                proposal,
                bump,
                creator,
                strategy_hash,
                metadata_uri,
            } => self.create_proposal(
                slot,
                governance_config,
                proposal,
                bump,
                creator,
                strategy_hash,
                metadata_uri,
            ),
            Resolved::CastVote {
                governance_config,
                proposal,
                vote_record,
                bump,
                voter,
                support_yes,
                weight,
            } => self.cast_vote(
                slot,
                governance_config,
                proposal,
                vote_record,
                bump,
                voter,
                support_yes,
                weight,
            ),
            Resolved::FinalizeProposal {
                governance_config,
                proposal,
                total_voting_power,
            } => self.finalize_proposal(slot, governance_config, proposal, total_voting_power),
            Resolved::CreateExecutionTicket {
                governance_config,
                proposal,
                execution_ticket,
                bump,
                creator,
                execution_hash,
            } => self.create_execution_ticket(
                governance_config,
                proposal,
                execution_ticket,
                bump,
                creator,
                execution_hash,
            ),
            Resolved::ConsumeExecutionTicket {
                governance_config,
                proposal,
                execution_ticket,
                executor,
            } => self.consume_execution_ticket(
                governance_config,
                proposal,
                execution_ticket,
                executor,
            ),
        };
        proof {
            if let Ok(unit) = res {
                assert(unit == ());
            }
        }
        res
    }

    /// Carries out `instruction` at clock value `slot`: resolves its keys and
    /// executes the result. A refused instruction leaves the store as it was.
    pub fn process(&mut self, slot: u64, instruction: &Instruction) -> (res: Result<
        (),
        LedgerError,
    >)
        requires
            old(self).wf(),
        ensures
            final(self).wf(),
            res == outcome(old(self)@, (Step { slot, instruction: *instruction })),
            final(self)@ == after(old(self)@, (Step { slot, instruction: *instruction })),
    {
        match self.resolve(instruction) {
            Err(e) => Err(e),
            Ok(resolved) => self.execute(slot, &resolved),
        }
    }

    /// Carries out `steps` in order and reports, for each, whether the store
    /// accepted it. A refused step changes nothing and the next one is tried.
    pub fn process_all(&mut self, steps: &Vec<Step>) -> (results: Vec<Result<(), LedgerError>>)
        requires
            old(self).wf(),
        ensures
            final(self).wf(),
            final(self)@ == run(old(self)@, steps@),
            results@.len() == steps@.len(),
            forall|i: int|
                0 <= i < steps@.len() ==> #[trigger] results@[i] == outcome(
                    run(old(self)@, steps@.take(i)),
                    steps@[i],
                ),
    {
        let mut results: Vec<Result<(), LedgerError>> = Vec::new();
        let mut done: usize = 0;
        assert(steps@.take(0) =~= Seq::<Step>::empty());
        while done < steps.len()
            invariant
                self.wf(),
                done <= steps@.len(),
                self@ == run(old(self)@, steps@.take(done as int)),
                results@.len() == done,
                forall|i: int|
                    0 <= i < done ==> #[trigger] results@[i] == outcome(
                        run(old(self)@, steps@.take(i)),
                        steps@[i],
                    ),
            decreases steps@.len() - done,
        {
            let step: Step = steps[done];
            let res = self.process(step.slot, &step.instruction);
            proof {
                let next = steps@.take(done + 1);
                assert(next.drop_last() =~= steps@.take(done as int));
                assert(next.last() == step);
            }
            results.push(res);
            done += 1;
        }
        assert(steps@.take(steps@.len() as int) =~= steps@);
        results
    }
}

/// The keys of `entries` as a set.
spec fn keys_of(entries: Seq<Entry>) -> Set<Address> {
    Set::new(|key: Address| present(entries, key))
}

/// Entries with distinct keys have as many keys as there are entries.
proof fn lemma_keys_counted(entries: Seq<Entry>)
    requires
        distinct_keys(entries),
    ensures
        keys_of(entries).finite(),
        keys_of(entries).len() == entries.len(),
    decreases entries.len(),
{
    if entries.len() == 0 {
        assert(keys_of(entries) =~= Set::empty());
    } else {
        let rest = entries.drop_last();
        let last = entries.last();
        lemma_keys_counted(rest);
        assert forall|key: Address| keys_of(entries).contains(key) == keys_of(rest).insert(
            last.key,
        ).contains(key) by {
            if present(entries, key) {
                let i = position(entries, key);
                if i < rest.len() {
                    assert(rest[i].key == key);
                }
            }
            if present(rest, key) {
                let i = position(rest, key);
                assert(entries[i].key == key);
            }
            if key == last.key {
                assert(entries[entries.len() - 1].key == key);
            }
        }
        assert(keys_of(entries) =~= keys_of(rest).insert(last.key));
        if present(rest, last.key) {
            let i = position(rest, last.key);
            assert(entries[i].key == entries[entries.len() - 1].key);
        }
    }
}

} // verus!
