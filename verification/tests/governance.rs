use dao_governance::dao::{find_ballot, resolve, tally_passes};
use dao_governance::{
    Address, Ballot, DAOContract, GovernanceError, ProposalId, ProposalStatus, MAX_VOTE_WEIGHT,
};

fn addr(n: u128) -> Address {
    Address { hi: 0, lo: n }
}

fn dao(voting_period: u64, quorum: i128) -> DAOContract {
    DAOContract::initialize(true, voting_period, quorum).unwrap()
}

fn propose(d: &mut DAOContract, creator: u128, now: u64) -> ProposalId {
    d.new_proposal(addr(creator), true, "fund the library".to_string(), "pay:500".to_string(), now)
        .unwrap()
}

#[test]
fn initialize_sets_parameters() {
    let d = dao(1000, 100);
    assert_eq!(d.voting_period(), 1000);
    assert_eq!(d.quorum(), 100);
    assert!(d.consult_proposals().is_empty());
}

#[test]
fn initialize_rejects_unauthenticated_admin() {
    assert_eq!(DAOContract::initialize(false, 1000, 100).err(), Some(GovernanceError::NotAuthorized));
    assert_eq!(DAOContract::initialize(false, 1000, -1).err(), Some(GovernanceError::NotAuthorized));
}

#[test]
fn initialize_rejects_negative_quorum() {
    assert_eq!(DAOContract::initialize(true, 1000, -1).err(), Some(GovernanceError::InvalidAmount));
    assert!(DAOContract::initialize(true, 0, 0).is_ok());
}

#[test]
fn new_proposal_stores_an_active_proposal() {
    let mut d = dao(1000, 100);
    let id = d
        .new_proposal(addr(7), true, "repaint".to_string(), "color:blue".to_string(), 40)
        .unwrap();
    let p = d.get_proposal(id).unwrap();
    assert_eq!(p.id, id);
    assert_eq!(p.creator, addr(7));
    assert_eq!(p.description, "repaint");
    assert_eq!(p.action_data, "color:blue");
    assert_eq!(p.created_at, 40);
    assert_eq!(p.voting_deadline, 1040);
    assert_eq!(p.status, ProposalStatus::Active);
}

#[test]
fn new_proposal_requires_authentication() {
    let mut d = dao(1000, 100);
    let r = d.new_proposal(addr(7), false, "x".to_string(), "y".to_string(), 0);
    assert_eq!(r, Err(GovernanceError::NotAuthorized));
    assert!(d.consult_proposals().is_empty());
}

#[test]
fn identifiers_are_pairwise_distinct() {
    let mut d = dao(10, 1);
    let mut ids = Vec::new();
    for t in 0..50u64 {
        ids.push(propose(&mut d, (t % 3) as u128, t));
    }
    for i in 0..ids.len() {
        for j in 0..i {
            assert_ne!(ids[i], ids[j]);
        }
    }
    assert_eq!(ids[0], ProposalId { hi: 0, lo: 0 });
    assert_eq!(ids[49], ProposalId { hi: 0, lo: 49 });
}

#[test]
fn get_proposal_unknown_is_not_found() {
    let mut d = dao(10, 1);
    propose(&mut d, 1, 0);
    assert_eq!(d.get_proposal(ProposalId { hi: 0, lo: 1 }).err(), Some(GovernanceError::NotFound));
    assert_eq!(d.get_proposal(ProposalId { hi: 1, lo: 0 }).err(), Some(GovernanceError::NotFound));
    assert!(d.get_proposal(ProposalId { hi: 0, lo: 0 }).is_ok());
}

#[test]
fn consult_proposals_lists_every_status_in_creation_order() {
    let mut d = dao(100, 10);
    let a = propose(&mut d, 1, 0);
    let b = propose(&mut d, 2, 1);
    let c = propose(&mut d, 3, 2);
    d.i_vote(addr(10), true, a, 20, true, 20, 5).unwrap();
    assert_eq!(d.execute_proposal(addr(1), true, a, 200), Ok(true));
    assert_eq!(d.execute_proposal(addr(1), true, b, 200), Ok(false));
    let all = d.consult_proposals();
    assert_eq!(all.len(), 3);
    assert_eq!((all[0].id, all[0].status), (a, ProposalStatus::Executed));
    assert_eq!((all[1].id, all[1].status), (b, ProposalStatus::Failed));
    assert_eq!((all[2].id, all[2].status), (c, ProposalStatus::Active));
    assert_eq!(d.consult_proposals().len(), 3);
}

#[test]
fn scenario_quorum_met_and_majority_executes() {
    let mut d = dao(1000, 100);
    let id = propose(&mut d, 1, 0);
    assert_eq!(d.i_vote(addr(10), true, id, 60, true, 60, 10), Ok((60, 0)));
    assert_eq!(d.i_vote(addr(11), true, id, 50, false, 75, 20), Ok((60, 50)));
    assert_eq!(d.check_proposal_status(id, 1001), Ok(ProposalStatus::Passed));
    assert_eq!(d.execute_proposal(addr(99), true, id, 1001), Ok(true));
    assert_eq!(d.check_proposal_status(id, 1001), Ok(ProposalStatus::Executed));
    assert_eq!(d.get_proposal(id).unwrap().status, ProposalStatus::Executed);
}

#[test]
fn scenario_quorum_not_met_fails() {
    let mut d = dao(1000, 100);
    let id = propose(&mut d, 1, 0);
    assert_eq!(d.i_vote(addr(10), true, id, 30, true, 60, 10), Ok((30, 0)));
    assert_eq!(d.i_vote(addr(11), true, id, 50, false, 75, 20), Ok((30, 50)));
    assert_eq!(d.check_proposal_status(id, 1001), Ok(ProposalStatus::Failed));
    assert_eq!(d.execute_proposal(addr(99), true, id, 1001), Ok(false));
    assert_eq!(d.get_proposal(id).unwrap().status, ProposalStatus::Failed);
    assert_eq!(d.check_proposal_status(id, 5000), Ok(ProposalStatus::Failed));
}

#[test]
fn scenario_amount_above_balance_is_rejected() {
    let mut d = dao(1000, 100);
    let id = propose(&mut d, 1, 0);
    assert_eq!(
        d.i_vote(addr(10), true, id, 61, true, 60, 10),
        Err(GovernanceError::InsufficientWeight)
    );
    assert_eq!(d.check_vote_voices(id), Ok((0, 0)));
    assert_eq!(d.i_vote(addr(10), true, id, 60, true, 60, 11), Ok((60, 0)));
}

#[test]
fn scenario_second_vote_is_rejected() {
    let mut d = dao(1000, 100);
    let id = propose(&mut d, 1, 0);
    assert_eq!(d.i_vote(addr(10), true, id, 40, true, 60, 10), Ok((40, 0)));
    assert_eq!(
        d.i_vote(addr(10), true, id, 5, false, 60, 11),
        Err(GovernanceError::AlreadyVoted)
    );
    assert_eq!(
        d.i_vote(addr(10), true, id, 500, true, 0, 12),
        Err(GovernanceError::AlreadyVoted)
    );
    assert_eq!(d.check_vote_voices(id), Ok((40, 0)));
}

#[test]
fn one_voter_may_vote_on_several_proposals() {
    let mut d = dao(1000, 100);
    let a = propose(&mut d, 1, 0);
    let b = propose(&mut d, 1, 0);
    assert_eq!(d.i_vote(addr(10), true, a, 40, true, 60, 10), Ok((40, 0)));
    assert_eq!(d.i_vote(addr(10), true, b, 60, false, 60, 10), Ok((0, 60)));
    assert_eq!(d.i_vote(addr(11), true, b, 7, false, 60, 10), Ok((0, 67)));
    assert_eq!(d.check_vote_voices(a), Ok((40, 0)));
    assert_eq!(d.check_vote_voices(b), Ok((0, 67)));
}

#[test]
fn tallies_are_the_sum_of_the_ballots() {
    let mut d = dao(1000, 100);
    let id = propose(&mut d, 1, 0);
    let mut sum_for: i128 = 0;
    let mut sum_against: i128 = 0;
    for v in 1..=20u128 {
        let amount = (v * 3) as i128;
        let in_favor = v % 3 != 0;
        let totals = d.i_vote(addr(v), true, id, amount, in_favor, 1000, v as u64).unwrap();
        if in_favor {
            sum_for += amount;
        } else {
            sum_against += amount;
        }
        assert_eq!(totals, (sum_for, sum_against));
        assert_eq!(d.check_vote_voices(id), Ok((sum_for, sum_against)));
    }
    assert_eq!(sum_for + sum_against, 630);
}

#[test]
fn vote_requires_authentication() {
    let mut d = dao(1000, 100);
    let id = propose(&mut d, 1, 0);
    assert_eq!(
        d.i_vote(addr(10), false, id, 40, true, 60, 10),
        Err(GovernanceError::NotAuthorized)
    );
    assert_eq!(d.check_vote_voices(id), Ok((0, 0)));
}

#[test]
fn vote_rejects_invalid_amounts() {
    let mut d = dao(1000, 100);
    let id = propose(&mut d, 1, 0);
    for amount in [0, -1, i128::MIN, MAX_VOTE_WEIGHT + 1, i128::MAX] {
        assert_eq!(
            d.i_vote(addr(10), true, id, amount, true, i128::MAX, 10),
            Err(GovernanceError::InvalidAmount)
        );
    }
    assert_eq!(
        d.i_vote(addr(10), true, id, MAX_VOTE_WEIGHT, true, i128::MAX, 10),
        Ok((MAX_VOTE_WEIGHT, 0))
    );
    assert_eq!(
        d.i_vote(addr(11), true, id, 1, false, 1, 10),
        Ok((MAX_VOTE_WEIGHT, 1))
    );
}

#[test]
fn vote_on_unknown_proposal_is_not_found() {
    let mut d = dao(1000, 100);
    propose(&mut d, 1, 0);
    assert_eq!(
        d.i_vote(addr(10), true, ProposalId { hi: 0, lo: 9 }, 40, true, 60, 10),
        Err(GovernanceError::NotFound)
    );
}

#[test]
fn vote_at_the_deadline_counts_and_after_it_does_not() {
    let mut d = dao(1000, 100);
    let id = propose(&mut d, 1, 5);
    assert_eq!(d.i_vote(addr(10), true, id, 40, true, 60, 1005), Ok((40, 0)));
    assert_eq!(
        d.i_vote(addr(11), true, id, 40, true, 60, 1006),
        Err(GovernanceError::VotingClosed)
    );
    assert_eq!(d.check_vote_voices(id), Ok((40, 0)));
}

#[test]
fn vote_on_resolved_proposal_is_closed() {
    let mut d = dao(1000, 10);
    let a = propose(&mut d, 1, 0);
    let b = propose(&mut d, 1, 0);
    d.i_vote(addr(10), true, a, 40, true, 60, 1).unwrap();
    assert_eq!(d.execute_proposal(addr(10), true, a, 1001), Ok(true));
    assert_eq!(d.execute_proposal(addr(10), true, b, 1001), Ok(false));
    assert_eq!(d.i_vote(addr(11), true, a, 40, true, 60, 2), Err(GovernanceError::VotingClosed));
    assert_eq!(d.i_vote(addr(11), true, b, 40, true, 60, 2), Err(GovernanceError::VotingClosed));
}

#[test]
fn ballot_weight_is_a_snapshot() {
    let mut d = dao(1000, 50);
    let id = propose(&mut d, 1, 0);
    assert_eq!(d.i_vote(addr(10), true, id, 60, true, 60, 10), Ok((60, 0)));
    assert_eq!(d.i_vote(addr(11), true, id, 10, false, 10, 20), Ok((60, 10)));
    assert_eq!(d.i_vote(addr(10), true, id, 1, true, 0, 30), Err(GovernanceError::AlreadyVoted));
    assert_eq!(d.check_vote_voices(id), Ok((60, 10)));
    assert_eq!(d.execute_proposal(addr(10), true, id, 1001), Ok(true));
    assert_eq!(d.check_vote_voices(id), Ok((60, 10)));
}

#[test]
fn check_vote_voices_unknown_is_not_found() {
    let d = dao(1000, 100);
    assert_eq!(d.check_vote_voices(ProposalId { hi: 0, lo: 0 }), Err(GovernanceError::NotFound));
}

#[test]
fn status_is_active_until_the_deadline_has_passed() {
    let mut d = dao(1000, 100);
    let id = propose(&mut d, 1, 0);
    d.i_vote(addr(10), true, id, 150, true, 150, 10).unwrap();
    assert_eq!(d.check_proposal_status(id, 999), Ok(ProposalStatus::Active));
    assert_eq!(d.check_proposal_status(id, 1000), Ok(ProposalStatus::Active));
    assert_eq!(d.check_proposal_status(id, 1001), Ok(ProposalStatus::Passed));
    assert_eq!(d.check_proposal_status(id, u64::MAX), Ok(ProposalStatus::Passed));
    assert_eq!(d.get_proposal(id).unwrap().status, ProposalStatus::Active);
    assert_eq!(
        d.check_proposal_status(ProposalId { hi: 0, lo: 3 }, 0),
        Err(GovernanceError::NotFound)
    );
}

#[test]
fn status_and_execution_agree() {
    let cases: [(i128, i128, i128, bool); 6] = [
        (60, 50, 100, true),
        (30, 50, 100, false),
        (50, 50, 100, false),
        (51, 50, 101, true),
        (51, 50, 102, false),
        (40, 70, 100, false),
    ];
    for (f, a, quorum, pass) in cases {
        let mut d = dao(10, quorum);
        let id = propose(&mut d, 1, 0);
        d.i_vote(addr(1), true, id, f, true, f, 1).unwrap();
        d.i_vote(addr(2), true, id, a, false, a, 1).unwrap();
        let shown = d.check_proposal_status(id, 11).unwrap();
        assert_eq!(shown == ProposalStatus::Passed, pass);
        assert_eq!(shown == ProposalStatus::Failed, !pass);
        assert_eq!(d.execute_proposal(addr(3), true, id, 11), Ok(pass));
        let after = if pass { ProposalStatus::Executed } else { ProposalStatus::Failed };
        assert_eq!(d.check_proposal_status(id, 11), Ok(after));
        assert_eq!(d.check_proposal_status(id, 12), Ok(after));
        assert_eq!(d.check_proposal_status(id, 0), Ok(after));
    }
}

#[test]
fn proposal_without_ballots_fails() {
    let mut d = dao(10, 0);
    let id = propose(&mut d, 1, 0);
    assert_eq!(d.check_proposal_status(id, 11), Ok(ProposalStatus::Failed));
    assert_eq!(d.execute_proposal(addr(3), true, id, 11), Ok(false));
    assert_eq!(d.execute_proposal(addr(3), true, id, 12), Err(GovernanceError::NotPassed));
}

#[test]
fn execute_before_the_deadline_is_rejected() {
    let mut d = dao(1000, 100);
    let id = propose(&mut d, 1, 0);
    d.i_vote(addr(10), true, id, 150, true, 150, 10).unwrap();
    assert_eq!(d.execute_proposal(addr(3), true, id, 999), Err(GovernanceError::NotPassed));
    assert_eq!(d.execute_proposal(addr(3), true, id, 1000), Err(GovernanceError::NotPassed));
    assert_eq!(d.get_proposal(id).unwrap().status, ProposalStatus::Active);
    assert_eq!(d.execute_proposal(addr(3), true, id, 1001), Ok(true));
}

#[test]
fn execute_twice_fails_with_already_executed() {
    let mut d = dao(1000, 100);
    let id = propose(&mut d, 1, 0);
    d.i_vote(addr(10), true, id, 150, true, 150, 10).unwrap();
    assert_eq!(d.execute_proposal(addr(3), true, id, 1001), Ok(true));
    assert_eq!(d.execute_proposal(addr(3), true, id, 1002), Err(GovernanceError::AlreadyExecuted));
    assert_eq!(d.execute_proposal(addr(4), true, id, 9999), Err(GovernanceError::AlreadyExecuted));
    assert_eq!(d.get_proposal(id).unwrap().status, ProposalStatus::Executed);
    assert_eq!(d.check_vote_voices(id), Ok((150, 0)));
}

#[test]
fn execute_failed_proposal_names_the_reason() {
    let mut d = dao(10, 100);
    let low = propose(&mut d, 1, 0);
    let tie = propose(&mut d, 1, 0);
    d.i_vote(addr(1), true, low, 99, true, 99, 1).unwrap();
    d.i_vote(addr(1), true, tie, 50, true, 99, 1).unwrap();
    d.i_vote(addr(2), true, tie, 50, false, 99, 1).unwrap();
    assert_eq!(d.execute_proposal(addr(3), true, low, 11), Ok(false));
    assert_eq!(d.execute_proposal(addr(3), true, tie, 11), Ok(false));
    assert_eq!(d.execute_proposal(addr(3), true, low, 12), Err(GovernanceError::QuorumNotMet));
    assert_eq!(d.execute_proposal(addr(3), true, tie, 12), Err(GovernanceError::NotPassed));
    assert_eq!(d.get_proposal(low).unwrap().status, ProposalStatus::Failed);
    assert_eq!(d.get_proposal(tie).unwrap().status, ProposalStatus::Failed);
}

#[test]
fn execute_requires_authentication_and_a_known_proposal() {
    let mut d = dao(10, 100);
    let id = propose(&mut d, 1, 0);
    d.i_vote(addr(1), true, id, 100, true, 100, 1).unwrap();
    assert_eq!(d.execute_proposal(addr(3), false, id, 11), Err(GovernanceError::NotAuthorized));
    assert_eq!(d.get_proposal(id).unwrap().status, ProposalStatus::Active);
    assert_eq!(
        d.execute_proposal(addr(3), true, ProposalId { hi: 0, lo: 1 }, 11),
        Err(GovernanceError::NotFound)
    );
}

#[test]
fn resolve_follows_the_rule() {
    let active = ProposalStatus::Active;
    assert_eq!(resolve(active, 1000, 60, 50, 100, 1000), ProposalStatus::Active);
    assert_eq!(resolve(active, 1000, 60, 50, 100, 1001), ProposalStatus::Passed);
    assert_eq!(resolve(active, 1000, 60, 50, 111, 1001), ProposalStatus::Failed);
    assert_eq!(resolve(active, 1000, 50, 50, 100, 1001), ProposalStatus::Failed);
    assert_eq!(resolve(ProposalStatus::Executed, 1000, 0, 0, 100, 1001), ProposalStatus::Executed);
    assert_eq!(resolve(ProposalStatus::Failed, 1000, 60, 50, 100, 1001), ProposalStatus::Failed);
    assert_eq!(resolve(ProposalStatus::Passed, 1000, 0, 0, 100, 0), ProposalStatus::Passed);
}

#[test]
fn tally_passes_needs_quorum_and_strict_majority() {
    assert!(tally_passes(60, 50, 110));
    assert!(!tally_passes(60, 50, 111));
    assert!(!tally_passes(55, 55, 100));
    assert!(!tally_passes(0, 0, 0));
    assert!(tally_passes(1, 0, 0));
    assert!(tally_passes(i128::MAX, 1, i128::MAX));
    assert!(!tally_passes(i128::MAX, i128::MAX, 0));
    assert!(!tally_passes(-1, i128::MIN, i128::MIN));
    assert!(!tally_passes(5, -3, 3));
    assert!(tally_passes(5, -3, 2));
}

#[test]
fn find_ballot_matches_voter_and_proposal() {
    let a = ProposalId::from_index(0);
    let b = ProposalId::from_index(1);
    let ballots = vec![
        Ballot { voter: addr(1), proposal_id: a, weight: 5, in_favor: true },
        Ballot { voter: addr(2), proposal_id: b, weight: 6, in_favor: false },
        Ballot { voter: addr(1), proposal_id: b, weight: 7, in_favor: false },
    ];
    assert_eq!(find_ballot(&ballots, addr(1), a), Some(0));
    assert_eq!(find_ballot(&ballots, addr(1), b), Some(2));
    assert_eq!(find_ballot(&ballots, addr(2), b), Some(1));
    assert_eq!(find_ballot(&ballots, addr(2), a), None);
    assert_eq!(find_ballot(&Vec::new(), addr(2), a), None);
}

#[test]
fn identifier_positions() {
    assert_eq!(ProposalId::from_index(3), ProposalId { hi: 0, lo: 3 });
    assert_eq!(ProposalId { hi: 0, lo: 3 }.locate(4), Some(3));
    assert_eq!(ProposalId { hi: 0, lo: 4 }.locate(4), None);
    assert_eq!(ProposalId { hi: 2, lo: 3 }.locate(4), None);
    assert_eq!(ProposalId { hi: 0, lo: 0 }.locate(0), None);
}
