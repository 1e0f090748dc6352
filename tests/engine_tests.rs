use dao_governance::{
    authorize, AccountId, DaoGovernance, GovernanceError, Operation, ProposalStatus,
    ProposalStore, Role, RoleRegistry, VoteLedger,
};

fn admin() -> AccountId {
    AccountId([0xA0; 32])
}

fn bob() -> AccountId {
    AccountId([0xB0; 32])
}

fn carol() -> AccountId {
    AccountId([0xC0; 32])
}

fn dave() -> AccountId {
    AccountId([0xD0; 32])
}

fn stranger() -> AccountId {
    AccountId([0xEE; 32])
}

/// Admin; bob and dave tutors; carol a student.
fn engine(quorum: u32) -> DaoGovernance {
    let mut dao = DaoGovernance::with_admin(quorum, admin());
    dao.set_role(admin(), bob(), Role::Tutor).unwrap();
    dao.set_role(admin(), carol(), Role::Student).unwrap();
    dao.set_role(admin(), dave(), Role::Tutor).unwrap();
    dao
}

#[test]
fn create_and_vote_proposal_works() {
    let mut dao = engine(2);
    let id = dao.create_proposal(bob(), "Learn Rust and Substrate".into(), String::new(), 60, 0).unwrap().id;

    assert_eq!(dao.get_proposal(id).unwrap().title, "Learn Rust and Substrate");

    let vote_result = dao.vote(carol(), id, true, 0);
    assert!(vote_result.is_ok());

    let second_vote = dao.vote(carol(), id, false, 0);
    assert!(second_vote.is_err());
}

#[test]
fn finalize_proposal_works() {
    let mut dao = engine(1);
    let id = dao
        .create_proposal(bob(), "Add Advanced Smart Contract Course".into(), String::new(), 1, 0)
        .unwrap()
        .id;
    dao.vote(carol(), id, true, 0).unwrap();

    let finalize_result = dao.finalize_proposal(id, 2);
    assert_eq!(finalize_result.unwrap(), ProposalStatus::Accepted);
}

#[test]
fn reject_proposal_if_more_no_votes() {
    let mut dao = engine(1);
    let id = dao.create_proposal(bob(), "Add Flawed Course".into(), String::new(), 1, 0).unwrap().id;

    dao.vote(carol(), id, false, 0).unwrap();
    let result = dao.finalize_proposal(id, 2);
    assert_eq!(result.unwrap(), ProposalStatus::Rejected);
}

#[test]
fn no_role_is_refused_everything() {
    let mut dao = engine(2);
    dao.create_proposal(bob(), "t".into(), "d".into(), 200, 100).unwrap();
    let before = dao.list_proposals();

    assert_eq!(dao.get_role(stranger()), None);
    assert_eq!(dao.set_role(stranger(), stranger(), Role::Admin), Err(GovernanceError::Unauthorized));
    assert_eq!(
        dao.create_proposal(stranger(), "x".into(), "y".into(), 200, 100),
        Err(GovernanceError::Unauthorized)
    );
    assert_eq!(dao.vote(stranger(), 0, true, 150), Err(GovernanceError::Unauthorized));
    assert_eq!(dao.get_role(stranger()), None);
    assert_eq!(dao.list_proposals(), before);
}

#[test]
fn new_engine_has_no_roles() {
    let mut dao = DaoGovernance::new(3);
    assert_eq!(dao.quorum(), 3);
    assert_eq!(dao.get_role(admin()), None);
    assert_eq!(dao.set_role(admin(), admin(), Role::Admin), Err(GovernanceError::Unauthorized));
    assert!(dao.list_proposals().is_empty());
}

#[test]
fn only_admin_sets_roles() {
    let mut dao = engine(2);
    assert_eq!(dao.set_role(bob(), carol(), Role::Admin), Err(GovernanceError::Unauthorized));
    assert_eq!(dao.set_role(carol(), carol(), Role::Admin), Err(GovernanceError::Unauthorized));
    assert_eq!(dao.get_role(carol()), Some(Role::Student));
    assert_eq!(dao.set_role(admin(), carol(), Role::Tutor), Ok(()));
    assert_eq!(dao.get_role(carol()), Some(Role::Tutor));
    // Re-assigning overwrites rather than adds.
    assert_eq!(dao.set_role(admin(), carol(), Role::Tutor), Ok(()));
    assert_eq!(dao.get_role(carol()), Some(Role::Tutor));
}

#[test]
fn created_proposals_are_fresh_with_increasing_ids() {
    let mut dao = engine(2);
    let a = dao.create_proposal(bob(), "a".into(), "da".into(), 200, 100).unwrap();
    let b = dao.create_proposal(admin(), "b".into(), "db".into(), 300, 100).unwrap();
    let c = dao.create_proposal(dave(), "c".into(), "dc".into(), 101, 100).unwrap();
    assert_eq!((a.id, b.id, c.id), (0, 1, 2));
    for p in [&a, &b, &c] {
        assert_eq!(p.yes_votes, 0);
        assert_eq!(p.no_votes, 0);
        assert_eq!(p.status, ProposalStatus::Active);
    }
    assert_eq!(b.proposer, admin());
    assert_eq!(dao.get_proposal(1), Some(b.clone()));
    assert_eq!(dao.list_proposals(), vec![a, b, c]);
    assert_eq!(dao.get_proposal(3), None);
}

#[test]
fn past_deadline_creates_nothing() {
    let mut dao = engine(2);
    dao.create_proposal(bob(), "a".into(), "d".into(), 200, 100).unwrap();
    assert_eq!(
        dao.create_proposal(bob(), "b".into(), "d".into(), 100, 100),
        Err(GovernanceError::InvalidEndBlock)
    );
    assert_eq!(
        dao.create_proposal(admin(), "c".into(), "d".into(), 0, 100),
        Err(GovernanceError::InvalidEndBlock)
    );
    assert_eq!(dao.list_proposals().len(), 1);
    // The role check comes first.
    assert_eq!(
        dao.create_proposal(carol(), "e".into(), "d".into(), 50, 100),
        Err(GovernanceError::Unauthorized)
    );
    assert_eq!(dao.list_proposals().len(), 1);
}

#[test]
fn second_vote_fails_whatever_its_decision() {
    let mut dao = engine(2);
    dao.create_proposal(bob(), "a".into(), "d".into(), 200, 100).unwrap();
    assert!(!dao.has_voted(0, carol()));
    dao.vote(carol(), 0, false, 120).unwrap();
    assert!(dao.has_voted(0, carol()));
    assert_eq!(dao.vote(carol(), 0, false, 130), Err(GovernanceError::AlreadyVoted));
    assert_eq!(dao.vote(carol(), 0, true, 200), Err(GovernanceError::AlreadyVoted));
    let p = dao.get_proposal(0).unwrap();
    assert_eq!((p.yes_votes, p.no_votes), (0, 1));
    // The same voter may still vote on another proposal.
    dao.create_proposal(bob(), "b".into(), "d".into(), 200, 100).unwrap();
    assert_eq!(dao.vote(carol(), 1, true, 120), Ok(()));
}

#[test]
fn late_vote_is_refused() {
    let mut dao = engine(2);
    dao.create_proposal(bob(), "a".into(), "d".into(), 200, 100).unwrap();
    dao.vote(bob(), 0, true, 200).unwrap();
    assert_eq!(dao.vote(carol(), 0, true, 201), Err(GovernanceError::VotingExpired));
    let p = dao.get_proposal(0).unwrap();
    assert_eq!((p.yes_votes, p.no_votes), (1, 0));
    assert!(!dao.has_voted(0, carol()));
}

#[test]
fn early_finalize_is_refused() {
    let mut dao = engine(2);
    dao.create_proposal(bob(), "a".into(), "d".into(), 200, 100).unwrap();
    assert_eq!(dao.finalize_proposal(0, 150), Err(GovernanceError::VotingNotEnded));
    assert_eq!(dao.finalize_proposal(0, 200), Err(GovernanceError::VotingNotEnded));
    assert_eq!(dao.get_proposal(0).unwrap().status, ProposalStatus::Active);
    assert_eq!(dao.finalize_proposal(7, 300), Err(GovernanceError::ProposalNotFound));
}

/// Quorum 2, one proposal with the given votes, finalized after its deadline.
fn finalize_with(votes: &[(AccountId, bool)]) -> ProposalStatus {
    let mut dao = engine(2);
    dao.create_proposal(admin(), "a".into(), "d".into(), 200, 100).unwrap();
    for (voter, support) in votes {
        dao.vote(*voter, 0, *support, 150).unwrap();
    }
    let status = dao.finalize_proposal(0, 201).unwrap();
    assert_eq!(dao.get_proposal(0).unwrap().status, status);
    status
}

#[test]
fn one_vote_misses_quorum_either_way() {
    assert_eq!(finalize_with(&[(carol(), true)]), ProposalStatus::Rejected);
    assert_eq!(finalize_with(&[(carol(), false)]), ProposalStatus::Rejected);
}

#[test]
fn two_yes_votes_are_accepted() {
    assert_eq!(finalize_with(&[(carol(), true), (bob(), true)]), ProposalStatus::Accepted);
}

#[test]
fn one_yes_two_no_is_rejected() {
    assert_eq!(
        finalize_with(&[(carol(), true), (bob(), false), (dave(), false)]),
        ProposalStatus::Rejected
    );
}

#[test]
fn tie_and_empty_are_rejected() {
    assert_eq!(finalize_with(&[(carol(), true), (bob(), false)]), ProposalStatus::Rejected);
    assert_eq!(finalize_with(&[]), ProposalStatus::Rejected);
    let mut dao = engine(0);
    dao.create_proposal(admin(), "a".into(), "d".into(), 200, 100).unwrap();
    assert_eq!(dao.finalize_proposal(0, 201), Ok(ProposalStatus::Rejected));
}

#[test]
fn quorum_zero_accepts_a_single_yes() {
    let mut dao = engine(0);
    dao.create_proposal(admin(), "a".into(), "d".into(), 200, 100).unwrap();
    dao.vote(carol(), 0, true, 150).unwrap();
    assert_eq!(dao.finalize_proposal(0, 201), Ok(ProposalStatus::Accepted));
}

#[test]
fn end_to_end_scenario() {
    let mut dao = DaoGovernance::with_admin(2, admin());
    dao.set_role(admin(), bob(), Role::Tutor).unwrap();
    dao.set_role(admin(), carol(), Role::Student).unwrap();

    let p = dao.create_proposal(bob(), "Proposal".into(), "Text".into(), 200, 100).unwrap();
    assert_eq!(p.id, 0);
    assert_eq!(p.status, ProposalStatus::Active);
    assert_eq!((p.yes_votes, p.no_votes), (0, 0));

    dao.vote(carol(), 0, true, 150).unwrap();
    assert_eq!(dao.get_proposal(0).unwrap().yes_votes, 1);
    dao.vote(bob(), 0, true, 150).unwrap();
    assert_eq!(dao.get_proposal(0).unwrap().yes_votes, 2);

    assert_eq!(dao.finalize_proposal(0, 201), Ok(ProposalStatus::Accepted));
    let p = dao.get_proposal(0).unwrap();
    assert_eq!(p.status, ProposalStatus::Accepted);
    assert_eq!((p.yes_votes, p.no_votes), (2, 0));
}

#[test]
fn finalize_happens_once() {
    let mut dao = engine(2);
    dao.create_proposal(admin(), "a".into(), "d".into(), 200, 100).unwrap();
    dao.vote(carol(), 0, true, 150).unwrap();
    dao.vote(bob(), 0, true, 150).unwrap();
    assert_eq!(dao.finalize_proposal(0, 201), Ok(ProposalStatus::Accepted));
    assert_eq!(dao.finalize_proposal(0, 202), Err(GovernanceError::VotingClosed));
    assert_eq!(dao.finalize_proposal(0, 5000), Err(GovernanceError::VotingClosed));
    assert_eq!(dao.get_proposal(0).unwrap().status, ProposalStatus::Accepted);
    // A finalized proposal takes no more votes.
    assert_eq!(dao.vote(dave(), 0, false, 150), Err(GovernanceError::VotingClosed));
}

#[test]
fn largest_deadline_and_time() {
    let mut dao = engine(1);
    dao.create_proposal(bob(), "a".into(), "d".into(), u64::MAX, u64::MAX - 1).unwrap();
    assert_eq!(dao.vote(carol(), 0, true, u64::MAX), Ok(()));
    assert_eq!(dao.finalize_proposal(0, u64::MAX), Err(GovernanceError::VotingNotEnded));
    assert_eq!(
        dao.create_proposal(bob(), "b".into(), "d".into(), u64::MAX, u64::MAX),
        Err(GovernanceError::InvalidEndBlock)
    );
}

#[test]
fn authorization_table() {
    let roles = [None, Some(Role::Admin), Some(Role::Tutor), Some(Role::Student)];
    let expect = [
        (Operation::SetRole, [false, true, false, false]),
        (Operation::CreateProposal, [false, true, true, false]),
        (Operation::Vote, [false, false, true, true]),
    ];
    for (op, allowed) in expect {
        for (role, ok) in roles.iter().zip(allowed) {
            assert_eq!(authorize(*role, op), ok, "{:?} {:?}", role, op);
        }
    }
}

#[test]
fn role_registry_on_its_own() {
    let mut reg = RoleRegistry::new();
    assert_eq!(reg.get_role(admin()), None);
    assert_eq!(reg.set_role(admin(), bob(), Role::Tutor), Err(GovernanceError::Unauthorized));
    let mut reg2 = RoleRegistry::with_admin(admin());
    assert_eq!(reg2.get_role(admin()), Some(Role::Admin));
    assert_eq!(reg2.set_role(admin(), bob(), Role::Tutor), Ok(()));
    assert_eq!(reg2.set_role(admin(), bob(), Role::Student), Ok(()));
    assert_eq!(reg2.get_role(bob()), Some(Role::Student));
    assert_eq!(reg.get_role(bob()), None);
}

#[test]
fn proposal_store_on_its_own() {
    let mut store = ProposalStore::new();
    assert_eq!(store.len(), 0);
    assert_eq!(store.create("a".into(), "d".into(), bob(), 10, 10), Err(GovernanceError::InvalidEndBlock));
    let p = store.create("a".into(), "d".into(), bob(), 11, 10).unwrap();
    assert_eq!(p.id, 0);
    assert_eq!(p.end_block, 11);
    assert_eq!(store.len(), 1);
    assert_eq!(store.get(0), Some(p.clone()));
    assert_eq!(store.get(1), None);
    assert_eq!(store.list_all(), vec![p]);
}

#[test]
fn vote_ledger_on_its_own() {
    let mut ledger = VoteLedger::new();
    assert!(!ledger.has_voted(0, carol()));
    assert_eq!(ledger.record(0, carol(), true), Ok(()));
    assert!(ledger.has_voted(0, carol()));
    assert!(!ledger.has_voted(1, carol()));
    assert!(!ledger.has_voted(0, bob()));
    assert_eq!(ledger.record(0, carol(), false), Err(GovernanceError::AlreadyVoted));
    assert_eq!(ledger.record(1, carol(), false), Ok(()));
}

#[test]
fn identities_compare_by_every_byte() {
    let mut last = [7u8; 32];
    last[31] = 8;
    assert_eq!(AccountId([7; 32]), AccountId([7; 32]));
    assert_ne!(AccountId([7; 32]), AccountId(last));
    let mut first = [7u8; 32];
    first[0] = 6;
    assert_ne!(AccountId([7; 32]), AccountId(first));
}
