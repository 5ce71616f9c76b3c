use anchor_lang::prelude::Pubkey;
use governance::address::Address;
use governance::reporting::{NavReport, ReportingConfig};
use governance::seeds::find_address;
use governance::state::{ExecutionTicket, GovernanceConfig, Proposal, VoteRecord};

fn addr(tag: u8) -> Address {
    Address { bytes: [tag; 32] }
}

fn program() -> Address {
    let mut bytes = [0u8; 32];
    for (i, byte) in bytes.iter_mut().enumerate() {
        *byte = (i as u8).wrapping_mul(7).wrapping_add(3);
    }
    Address { bytes }
}

fn expected(seeds: &[&[u8]], program_id: &Address) -> Option<(Address, u8)> {
    Pubkey::try_find_program_address(seeds, &Pubkey::new_from_array(program_id.bytes))
        .map(|(key, bump)| (Address { bytes: key.to_bytes() }, bump))
}

#[test]
fn tags_spell_the_names_of_the_records() {
    assert_eq!(&GovernanceConfig::SEED, b"governance_config");
    assert_eq!(&Proposal::SEED_PREFIX, b"proposal");
    assert_eq!(&VoteRecord::SEED_PREFIX, b"vote");
    assert_eq!(&ExecutionTicket::SEED_PREFIX, b"exec_ticket");
    assert_eq!(&ReportingConfig::SEED, b"reporting_config");
    assert_eq!(&NavReport::SEED_PREFIX, b"nav_report");
}

#[test]
fn config_address_is_the_program_address_of_tag_and_vault() {
    let vault = addr(2);
    let found = GovernanceConfig::find_address(&program(), &vault);
    assert!(found.is_some());
    assert_eq!(found, expected(&[b"governance_config", &vault.bytes], &program()));
    assert_ne!(found.unwrap().0, vault);
}

#[test]
fn proposal_address_is_the_program_address_of_tag_config_and_index() {
    let config = addr(3);
    let index: u64 = 0x0102_0304_0506_0708;
    let found = Proposal::find_address(&program(), &config, index);
    assert!(found.is_some());
    assert_eq!(
        found,
        expected(&[b"proposal", &config.bytes, &[8, 7, 6, 5, 4, 3, 2, 1]], &program())
    );
    assert_eq!(found, expected(&[b"proposal", &config.bytes, &index.to_le_bytes()], &program()));
}

#[test]
fn vote_address_is_the_program_address_of_tag_proposal_and_voter() {
    let proposal = addr(5);
    let voter = addr(6);
    let found = VoteRecord::find_address(&program(), &proposal, &voter);
    assert!(found.is_some());
    assert_eq!(found, expected(&[b"vote", &proposal.bytes, &voter.bytes], &program()));
    assert_ne!(found, VoteRecord::find_address(&program(), &voter, &proposal));
}

#[test]
fn ticket_address_is_the_program_address_of_tag_and_proposal() {
    let proposal = addr(5);
    let found = ExecutionTicket::find_address(&program(), &proposal);
    assert!(found.is_some());
    assert_eq!(found, expected(&[b"exec_ticket", &proposal.bytes], &program()));
}

#[test]
fn addresses_differ_with_the_keys_and_with_the_program() {
    let a = Proposal::find_address(&program(), &addr(3), 0).unwrap().0;
    let b = Proposal::find_address(&program(), &addr(3), 1).unwrap().0;
    let c = Proposal::find_address(&program(), &addr(4), 0).unwrap().0;
    let d = Proposal::find_address(&addr(42), &addr(3), 0).unwrap().0;
    assert_ne!(a, b);
    assert_ne!(a, c);
    assert_ne!(a, d);
    assert_eq!(a, Proposal::find_address(&program(), &addr(3), 0).unwrap().0);
}

#[test]
fn an_address_and_its_bump_re_create_the_address() {
    let vault = addr(2);
    let (key, bump) = GovernanceConfig::find_address(&program(), &vault).unwrap();
    let again = Pubkey::create_program_address(
        &[b"governance_config", &vault.bytes, &[bump]],
        &Pubkey::new_from_array(program().bytes),
    )
    .unwrap();
    assert_eq!(again.to_bytes(), key.bytes);
}

#[test]
fn find_address_takes_any_seeds() {
    let seeds: Vec<Vec<u8>> = vec![b"abc".to_vec(), vec![], vec![1, 2, 3]];
    assert_eq!(
        find_address(&seeds, &program()),
        expected(&[b"abc", &[], &[1, 2, 3]], &program())
    );
    assert!(find_address(&seeds, &program()).is_some());
    let none: Vec<Vec<u8>> = Vec::new();
    assert_eq!(find_address(&none, &program()), expected(&[], &program()));
}

#[test]
fn find_address_finds_none_for_a_seed_that_is_too_long_or_for_too_many() {
    let long: Vec<Vec<u8>> = vec![vec![1; 33]];
    assert_eq!(find_address(&long, &program()), None);
    let longest: Vec<Vec<u8>> = vec![vec![1; 32]];
    assert!(find_address(&longest, &program()).is_some());
    let many: Vec<Vec<u8>> = vec![vec![1]; 16];
    assert_eq!(find_address(&many, &program()), None);
    let most: Vec<Vec<u8>> = vec![vec![1]; 15];
    assert!(find_address(&most, &program()).is_some());
}
