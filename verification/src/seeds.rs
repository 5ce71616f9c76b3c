//! Where records live: every record's address is derived from a fixed tag
//! and the keys of its parents, so that anyone can compute it and no two
//! records share a key.

use vstd::prelude::*;
use vstd::bytes::{spec_u64_to_le_bytes, u64_to_le_bytes};
use vstd::slice::slice_to_vec;
use anchor_lang::prelude::Pubkey;
use crate::address::Address;
use crate::state::{ExecutionTicket, GovernanceConfig, Proposal, VoteRecord};

verus! {

/// The program derived address of `seeds` under `program_id`, with its bump
/// seed, as `Pubkey::try_find_program_address` computes it; `None` where it
/// finds none.
pub uninterp spec fn derived_address(seeds: Seq<Seq<u8>>, program_id: Seq<u8>) -> Option<
    (Seq<u8>, u8),
>;

/// Calls `Pubkey::try_find_program_address` of `solana_program`, which hashes
/// the seeds, a bump seed and the program id, and searches the bump seeds
/// downwards from 255 for a hash that is no point of the ed25519 curve. The
/// result is a function of the seeds and the program id alone; the contract
/// gives it the name `derived_address` and says nothing more of it.
#[verifier::external_body]
fn try_find_program_address(seeds: &Vec<Vec<u8>>, program_id: &Address) -> (found: Option<
    (Address, u8),
>)
    ensures
        match found {
            Some((address, bump)) => derived_address(seeds.deep_view(), program_id@) == Some(
                (address@, bump),
            ),
            None => derived_address(seeds.deep_view(), program_id@) is None,
        },
{
    let parts: Vec<&[u8]> = seeds.iter().map(|seed| seed.as_slice()).collect();
    match Pubkey::try_find_program_address(&parts, &Pubkey::new_from_array(program_id.bytes)) {
        Some((key, bump)) => Some((Address { bytes: key.to_bytes() }, bump)),
        None => None,
    }
}

/// The address derived from `seeds` under `program_id`, with its bump seed.
pub open spec fn located(seeds: Seq<Seq<u8>>, program_id: Address) -> Option<(Address, u8)> {
    match derived_address(seeds, program_id@) {
        Some((bytes, bump)) => Some((Address::of(bytes), bump)),
        None => None,
    }
}

/// Derives the address of the record with the given seeds.
pub fn find_address(seeds: &Vec<Vec<u8>>, program_id: &Address) -> (found: Option<(Address, u8)>)
    ensures
        found == located(seeds.deep_view(), *program_id),
{
    let found = try_find_program_address(seeds, program_id);
    proof {
        if let Some((address, _)) = found {
            Address::lemma_of_view(address);
        }
    }
    found
}

impl GovernanceConfig {
    /// The tag of config addresses: `governance_config` in ASCII.
    pub const SEED: [u8; 17] = [
        103, 111, 118, 101, 114, 110, 97, 110, 99, 101, 95, 99, 111, 110, 102, 105, 103,
    ];

    /// A config is keyed by its vault.
    pub open spec fn seeds(vault: Address) -> Seq<Seq<u8>> {
        seq![Self::SEED@, vault@]
    }

    /// The address of the config of `vault`.
    pub open spec fn address(program_id: Address, vault: Address) -> Option<(Address, u8)> {
        located(Self::seeds(vault), program_id)
    }

    pub fn find_address(program_id: &Address, vault: &Address) -> (found: Option<(Address, u8)>)
        ensures
            found == Self::address(*program_id, *vault),
    {
        let mut seeds: Vec<Vec<u8>> = Vec::new();
        seeds.push(slice_to_vec(Self::SEED.as_slice()));
        seeds.push(vault.to_vec());
        assert(seeds.deep_view() =~~= Self::seeds(*vault));
        find_address(&seeds, program_id)
    }
}

impl Proposal {
    /// The tag of proposal addresses: `proposal` in ASCII.
    pub const SEED_PREFIX: [u8; 8] = [112, 114, 111, 112, 111, 115, 97, 108];

    /// A proposal is keyed by its config and its index, the index as eight
    /// bytes, lowest first.
    pub open spec fn seeds(governance: Address, index: u64) -> Seq<Seq<u8>> {
        seq![Self::SEED_PREFIX@, governance@, spec_u64_to_le_bytes(index)]
    }

    /// The address of proposal `index` of the config at `governance`.
    pub open spec fn address(program_id: Address, governance: Address, index: u64) -> Option<
        (Address, u8),
    > {
        located(Self::seeds(governance, index), program_id)
    }

    pub fn find_address(program_id: &Address, governance: &Address, index: u64) -> (found: Option<
        (Address, u8),
    >)
        ensures
            found == Self::address(*program_id, *governance, index),
    {
        let mut seeds: Vec<Vec<u8>> = Vec::new();
        seeds.push(slice_to_vec(Self::SEED_PREFIX.as_slice()));
        seeds.push(governance.to_vec());
        seeds.push(u64_to_le_bytes(index));
        assert(seeds.deep_view() =~~= Self::seeds(*governance, index));
        find_address(&seeds, program_id)
    }
}

impl VoteRecord {
    /// The tag of vote record addresses: `vote` in ASCII.
    pub const SEED_PREFIX: [u8; 4] = [118, 111, 116, 101];

    /// A vote record is keyed by its proposal and its voter.
    pub open spec fn seeds(proposal: Address, voter: Address) -> Seq<Seq<u8>> {
        seq![Self::SEED_PREFIX@, proposal@, voter@]
    }

    /// The address of the vote of `voter` on the proposal at `proposal`.
    pub open spec fn address(program_id: Address, proposal: Address, voter: Address) -> Option<
        (Address, u8),
    > {
        located(Self::seeds(proposal, voter), program_id)
    }

    pub fn find_address(program_id: &Address, proposal: &Address, voter: &Address) -> (found:
        Option<(Address, u8)>)
        ensures
            found == Self::address(*program_id, *proposal, *voter),
    {
        let mut seeds: Vec<Vec<u8>> = Vec::new();
        seeds.push(slice_to_vec(Self::SEED_PREFIX.as_slice()));
        seeds.push(proposal.to_vec());
        seeds.push(voter.to_vec());
        assert(seeds.deep_view() =~~= Self::seeds(*proposal, *voter));
        find_address(&seeds, program_id)
    }
}

impl ExecutionTicket {
    /// The tag of ticket addresses: `exec_ticket` in ASCII.
    pub const SEED_PREFIX: [u8; 11] = [101, 120, 101, 99, 95, 116, 105, 99, 107, 101, 116];

    /// A ticket is keyed by its proposal alone.
    pub open spec fn seeds(proposal: Address) -> Seq<Seq<u8>> {
        seq![Self::SEED_PREFIX@, proposal@]
    }

    /// The address of the ticket of the proposal at `proposal`.
    pub open spec fn address(program_id: Address, proposal: Address) -> Option<(Address, u8)> {
        located(Self::seeds(proposal), program_id)
    }

    pub fn find_address(program_id: &Address, proposal: &Address) -> (found: Option<
        (Address, u8),
    >)
        ensures
            found == Self::address(*program_id, *proposal),
    {
        let mut seeds: Vec<Vec<u8>> = Vec::new();
        seeds.push(slice_to_vec(Self::SEED_PREFIX.as_slice()));
        seeds.push(proposal.to_vec());
        assert(seeds.deep_view() =~~= Self::seeds(*proposal));
        find_address(&seeds, program_id)
    }
}

} // verus!
