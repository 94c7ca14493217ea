use stellar_grants::constants::{
    DEFAULT_DAO_QUORUM_VOTES, DEFAULT_DAO_VOTING_PERIOD_LEDGERS, MAX_DAO_DESCRIPTION_LEN,
    MAX_DAO_TITLE_LEN,
};
use stellar_grants::dao::{
    cancel, create_proposal, execute, finalize, is_dao_mode_enabled, require_dao_mode_disabled,
    require_global_admin, set_dao_mode, set_quorum_votes, set_voting_period, vote, DaoEffect,
    DaoProposal, DaoProposalStatus, DaoProposalType,
};
use stellar_grants::types::{Address, ContractError};

fn setup() -> Address {
    Address { id: 1 }
}

fn new_proposal(proposer: Address, title: &str, now: u64) -> Result<DaoProposal, ContractError> {
    create_proposal(
        proposer,
        title.as_bytes().to_vec(),
        "desc".as_bytes().to_vec(),
        DaoProposalType::Generic,
        1,
        DEFAULT_DAO_VOTING_PERIOD_LEDGERS,
        now,
    )
}

#[test]
fn test_create_proposal_empty_title_rejected() {
    let proposer = Address { id: 2 };
    let result = create_proposal(
        proposer,
        "".as_bytes().to_vec(),
        "desc".as_bytes().to_vec(),
        DaoProposalType::Generic,
        1,
        DEFAULT_DAO_VOTING_PERIOD_LEDGERS,
        0,
    );
    assert_eq!(result, Err(ContractError::InvalidInput));
}

#[test]
fn test_create_proposal_success_starts_active() {
    let proposer = Address { id: 2 };
    let proposal = create_proposal(
        proposer,
        "Add new feature".as_bytes().to_vec(),
        "desc".as_bytes().to_vec(),
        DaoProposalType::Generic,
        1,
        DEFAULT_DAO_VOTING_PERIOD_LEDGERS,
        0,
    )
    .unwrap();
    assert_eq!(proposal.status, DaoProposalStatus::Active);
    assert_eq!(proposal.votes_for, 0);
}

#[test]
fn test_vote_twice_rejected() {
    let proposer = Address { id: 2 };
    let _voter = Address { id: 3 };
    let proposal = new_proposal(proposer, "Title", 0).unwrap();

    let after_first = vote(Some(proposal), false, 0, true, 0).unwrap();
    let result = vote(Some(after_first), true, 0, true, 0);
    assert_eq!(result, Err(ContractError::AlreadyVoted));
}

#[test]
fn test_vote_on_unknown_proposal_rejected() {
    let result = vote(None, false, 0, true, 0);
    assert_eq!(result, Err(ContractError::DaoProposalNotFound));
}

#[test]
fn test_finalize_before_deadline_rejected() {
    let proposer = Address { id: 2 };
    let proposal = new_proposal(proposer, "Title", 0).unwrap();
    let result = finalize(Some(proposal), DEFAULT_DAO_QUORUM_VOTES, 0);
    assert_eq!(result, Err(ContractError::DaoProposalVotingClosed));
}

#[test]
fn test_finalize_quorum_not_reached_rejected() {
    let proposer = Address { id: 2 };
    let proposal = new_proposal(proposer, "Title", 0).unwrap();
    let later = DEFAULT_DAO_VOTING_PERIOD_LEDGERS as u64 + 1;
    let result = finalize(Some(proposal), DEFAULT_DAO_QUORUM_VOTES, later);
    assert_eq!(result, Err(ContractError::DaoProposalQuorumNotReached));
}

#[test]
fn test_execute_non_passed_proposal_rejected() {
    let proposer = Address { id: 2 };
    let proposal = new_proposal(proposer, "Title", 0).unwrap();
    let result = execute(Some(proposal), None, Ok(()), 0);
    assert_eq!(result, Err(ContractError::DaoProposalRejected));
}

#[test]
fn test_cancel_by_non_proposer_non_admin_rejected() {
    let admin = setup();
    let proposer = Address { id: 2 };
    let stranger = Address { id: 3 };
    let proposal = new_proposal(proposer, "Title", 0).unwrap();
    let result = cancel(Some(proposal), Some(admin), stranger);
    assert_eq!(result, Err(ContractError::Unauthorized));
}

#[test]
fn test_cancel_by_proposer_succeeds() {
    let proposer = Address { id: 2 };
    let proposal = new_proposal(proposer, "Title", 0).unwrap();
    let proposal = cancel(Some(proposal), None, proposer).unwrap();
    assert_eq!(proposal.status, DaoProposalStatus::Cancelled);
}

#[test]
fn test_set_dao_mode_requires_admin() {
    let admin = setup();
    let stranger = Address { id: 3 };
    assert_eq!(
        set_dao_mode(Some(admin), stranger, true),
        Err(ContractError::Unauthorized)
    );
    let stored = set_dao_mode(Some(admin), admin, true).unwrap();
    assert!(is_dao_mode_enabled(Some(stored)));
}

#[test]
fn test_require_dao_mode_disabled_passes_when_off() {
    assert!(require_dao_mode_disabled(is_dao_mode_enabled(None)).is_ok());
}

#[test]
fn test_require_dao_mode_disabled_fails_when_on() {
    let admin = setup();
    let stored = set_dao_mode(Some(admin), admin, true).unwrap();
    assert_eq!(
        require_dao_mode_disabled(is_dao_mode_enabled(Some(stored))),
        Err(ContractError::DaoModeDisabled)
    );
}

#[test]
fn create_proposal_sets_every_field() {
    let proposer = Address { id: 2 };
    let p = create_proposal(
        proposer,
        "T".as_bytes().to_vec(),
        "".as_bytes().to_vec(),
        DaoProposalType::ChangeAdmin(Address { id: 9 }),
        44,
        100,
        u64::MAX - 10,
    )
    .unwrap();
    assert_eq!(
        p,
        DaoProposal {
            id: 44,
            proposer,
            title: "T".as_bytes().to_vec(),
            description: "".as_bytes().to_vec(),
            proposal_type: DaoProposalType::ChangeAdmin(Address { id: 9 }),
            status: DaoProposalStatus::Active,
            votes_for: 0,
            votes_against: 0,
            created_at: u64::MAX - 10,
            voting_deadline: u64::MAX,
            executed_at: None,
        }
    );
}

#[test]
fn create_proposal_length_limits_count_bytes() {
    let proposer = Address { id: 2 };
    let long_title = vec![b'a'; MAX_DAO_TITLE_LEN as usize];
    assert!(create_proposal(proposer, long_title.clone(), Vec::new(), DaoProposalType::Generic, 1, 1, 0).is_ok());
    let too_long = vec![b'a'; MAX_DAO_TITLE_LEN as usize + 1];
    assert_eq!(
        create_proposal(proposer, too_long, Vec::new(), DaoProposalType::Generic, 1, 1, 0),
        Err(ContractError::InvalidInput)
    );
    let wide = "é".repeat(MAX_DAO_TITLE_LEN as usize / 2 + 1).into_bytes();
    assert_eq!(
        create_proposal(proposer, wide, Vec::new(), DaoProposalType::Generic, 1, 1, 0),
        Err(ContractError::InvalidInput)
    );
    let long_desc = vec![b'd'; MAX_DAO_DESCRIPTION_LEN as usize + 1];
    assert_eq!(
        create_proposal(proposer, "t".as_bytes().to_vec(), long_desc, DaoProposalType::Generic, 1, 1, 0),
        Err(ContractError::InvalidInput)
    );
}

#[test]
fn vote_finalize_execute_lifecycle() {
    let admin = setup();
    let proposer = Address { id: 2 };
    let p = create_proposal(
        proposer,
        "Withdraw".as_bytes().to_vec(),
        "desc".as_bytes().to_vec(),
        DaoProposalType::TreasuryWithdrawal(Address { id: 10 }, Address { id: 11 }, 250),
        3,
        10,
        100,
    )
    .unwrap();
    let p = vote(Some(p), false, 30, true, 105).unwrap();
    let p = vote(Some(p), false, 20, false, 110).unwrap();
    assert_eq!((p.votes_for, p.votes_against), (30, 20));
    assert_eq!(vote(Some(p.clone()), false, 1, true, 111), Err(ContractError::DaoProposalVotingClosed));
    assert_eq!(finalize(Some(p.clone()), 60, 111), Err(ContractError::DaoProposalQuorumNotReached));
    let p = finalize(Some(p), 50, 111).unwrap();
    assert_eq!(p.status, DaoProposalStatus::Passed);
    assert_eq!(finalize(Some(p.clone()), 50, 112), Err(ContractError::DaoProposalNotActive));
    assert_eq!(execute(Some(p.clone()), None, Ok(()), 120), Err(ContractError::Unauthorized));
    let (p, effect) = execute(Some(p), Some(admin), Ok(()), 120).unwrap();
    assert_eq!(p.status, DaoProposalStatus::Executed);
    assert_eq!(p.executed_at, Some(120));
    assert_eq!(
        effect,
        DaoEffect::TreasuryWithdrawal {
            admin,
            token: Address { id: 10 },
            to: Address { id: 11 },
            amount: 250
        }
    );
    assert_eq!(execute(Some(p.clone()), Some(admin), Ok(()), 130), Err(ContractError::DaoProposalRejected));
    assert_eq!(cancel(Some(p), Some(admin), admin), Err(ContractError::DaoProposalNotActive));
}

#[test]
fn tie_is_rejected_and_votes_saturate() {
    let proposer = Address { id: 2 };
    let p = new_proposal(proposer, "Tie", 0).unwrap();
    let p = vote(Some(p), false, u64::MAX, true, 1).unwrap();
    let p = vote(Some(p), false, 5, true, 1).unwrap();
    assert_eq!(p.votes_for, u64::MAX);
    let p = vote(Some(p), false, u64::MAX, false, 1).unwrap();
    let later = DEFAULT_DAO_VOTING_PERIOD_LEDGERS as u64 + 1;
    let p = finalize(Some(p), u64::MAX, later).unwrap();
    assert_eq!(p.status, DaoProposalStatus::Rejected);
    assert_eq!(execute(Some(p), None, Ok(()), later), Err(ContractError::DaoProposalRejected));
}

#[test]
fn execute_effects_for_each_type() {
    let admin = setup();
    let mut p = new_proposal(Address { id: 2 }, "Cfg", 0).unwrap();
    p.status = DaoProposalStatus::Passed;
    p.proposal_type = DaoProposalType::UpdateConfig(vec![1, 2, 3]);
    assert_eq!(
        execute(Some(p.clone()), None, Err(ContractError::InvalidInput), 9),
        Err(ContractError::InvalidInput)
    );
    let (q, effect) = execute(Some(p.clone()), None, Ok(()), 9).unwrap();
    assert_eq!(effect, DaoEffect::UpdateConfig);
    assert_eq!(q.proposal_type, DaoProposalType::UpdateConfig(vec![1, 2, 3]));
    p.proposal_type = DaoProposalType::ChangeAdmin(Address { id: 77 });
    assert_eq!(execute(Some(p.clone()), None, Err(ContractError::InvalidInput), 9).unwrap().1, DaoEffect::ChangeAdmin(Address { id: 77 }));
    p.proposal_type = DaoProposalType::Generic;
    assert_eq!(execute(Some(p), Some(admin), Ok(()), 9).unwrap().1, DaoEffect::Nothing);
    assert_eq!(execute(None, Some(admin), Ok(()), 9), Err(ContractError::DaoProposalNotFound));
}

#[test]
fn admin_settings_and_cancel_by_admin() {
    let admin = setup();
    let stranger = Address { id: 5 };
    assert_eq!(require_global_admin(None, admin), Err(ContractError::Unauthorized));
    assert_eq!(require_global_admin(Some(admin), stranger), Err(ContractError::Unauthorized));
    assert_eq!(require_global_admin(Some(admin), admin), Ok(()));
    assert_eq!(set_voting_period(Some(admin), admin, 0), Err(ContractError::InvalidInput));
    assert_eq!(set_voting_period(Some(admin), stranger, 5), Err(ContractError::Unauthorized));
    assert_eq!(set_voting_period(Some(admin), admin, 5), Ok(5));
    assert_eq!(set_quorum_votes(Some(admin), admin, 0), Err(ContractError::InvalidInput));
    assert_eq!(set_quorum_votes(None, admin, 3), Err(ContractError::Unauthorized));
    assert_eq!(set_quorum_votes(Some(admin), admin, 3), Ok(3));
    assert!(!is_dao_mode_enabled(Some(false)));
    let p = new_proposal(Address { id: 2 }, "Title", 0).unwrap();
    let p = cancel(Some(p), Some(admin), admin).unwrap();
    assert_eq!(p.status, DaoProposalStatus::Cancelled);
    assert_eq!(vote(Some(p), false, 1, true, 0), Err(ContractError::DaoProposalNotActive));
    assert_eq!(cancel(None, Some(admin), admin), Err(ContractError::DaoProposalNotFound));
}
