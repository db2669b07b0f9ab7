//! What holds of every valid governance state and of every sequence of
//! requests, stated over the model and proved.

use vstd::prelude::*;
use crate::bytes32::{lemma_bytes_of_word, lemma_word_of_bytes, word_bytes};
use crate::model::{
    has_ballot, lemma_votes_push, lemma_weight_cast_bound, weight_cast, Ballot, DaoState,
};
use crate::types::{Address, GovernanceError, ProposalId, ProposalStatus, MAX_VOTE_WEIGHT};

verus! {

/// Identifiers and thirty-two-byte strings stand one for one: writing an
/// identifier and reading the bytes gives it back, and so the other way.
pub proof fn law_identifier_bytes_round_trip(id: ProposalId, s: Seq<u8>)
    requires
        s.len() == 32,
    ensures
        id.bytes().len() == 32,
        ProposalId::of_bytes(id.bytes()) == id,
        ProposalId::of_bytes(s).bytes() == s,
{
    lemma_word_of_bytes(id.hi);
    lemma_word_of_bytes(id.lo);
    assert(id.bytes().subrange(0, 16) =~= word_bytes(id.hi));
    assert(id.bytes().subrange(16, 32) =~= word_bytes(id.lo));
    lemma_bytes_of_word(s.subrange(0, 16));
    lemma_bytes_of_word(s.subrange(16, 32));
    assert(ProposalId::of_bytes(s).bytes() =~= s);
}

/// Account keys and thirty-two-byte strings stand one for one.
pub proof fn law_address_bytes_round_trip(address: Address, s: Seq<u8>)
    requires
        s.len() == 32,
    ensures
        address.bytes().len() == 32,
        Address::of_bytes(address.bytes()) == address,
        Address::of_bytes(s).bytes() == s,
{
    lemma_word_of_bytes(address.hi);
    lemma_word_of_bytes(address.lo);
    assert(address.bytes().subrange(0, 16) =~= word_bytes(address.hi));
    assert(address.bytes().subrange(16, 32) =~= word_bytes(address.lo));
    lemma_bytes_of_word(s.subrange(0, 16));
    lemma_bytes_of_word(s.subrange(16, 32));
    assert(Address::of_bytes(s).bytes() =~= s);
}

/// A new proposal leaves a valid state valid, as long as its deadline fits
/// in a `u64` and the registry has room for it.
pub proof fn law_proposal_keeps_validity(
    s: DaoState,
    creator: Address,
    description: String,
    action_data: String,
    now: u64,
)
    requires
        s.valid(),
        now + s.voting_period <= u64::MAX,
        s.proposals.len() < usize::MAX,
    ensures
        s.after_proposal(creator, description, action_data, now).valid(),
{
    let t = s.after_proposal(creator, description, action_data, now);
    assert forall|i: int| 0 <= i < t.proposals.len() implies #[trigger] t.status_consistent(i) by {
        if i < s.proposals.len() {
            assert(t.proposals[i] == s.proposals[i]);
            assert(s.status_consistent(i));
        }
    }
    assert forall|i: int| 0 <= i < t.proposals.len() implies {
        &&& (#[trigger] t.proposals[i]).id == ProposalId::of_index(i)
        &&& t.proposals[i].voting_deadline == t.proposals[i].created_at + t.voting_period
    } by {
        if i < s.proposals.len() {
            assert(t.proposals[i] == s.proposals[i]);
        }
    }
}

/// An accepted vote leaves a valid state valid, as long as there is room
/// for the ballot.
pub proof fn law_vote_keeps_validity(
    s: DaoState,
    voter: Address,
    id: ProposalId,
    amount: i128,
    in_favor: bool,
    balance: i128,
    now: u64,
)
    requires
        s.valid(),
        s.ballots.len() < usize::MAX,
        s.vote_error(voter, true, id, amount, balance, now) is None,
    ensures
        s.after_vote(voter, id, amount, in_favor).valid(),
{
    let t = s.after_vote(voter, id, amount, in_favor);
    let b = Ballot { voter, proposal_id: id, weight: amount, in_favor };
    let n = s.ballots.len() as int;
    assert forall|k: int| 0 <= k < t.ballots.len() implies {
        &&& 0 < (#[trigger] t.ballots[k]).weight <= MAX_VOTE_WEIGHT
        &&& t.position(t.ballots[k].proposal_id) is Some
    } by {
        if k < n {
            assert(t.ballots[k] == s.ballots[k]);
        }
    }
    assert forall|j: int, k: int| 0 <= j < k < t.ballots.len() implies !((
    #[trigger] t.ballots[j]).voter == (#[trigger] t.ballots[k]).voter && t.ballots[j].proposal_id
        == t.ballots[k].proposal_id) by {
        assert(t.ballots[j] == s.ballots[j]);
        if k < n {
            assert(t.ballots[k] == s.ballots[k]);
        }
    }
    assert forall|i: int| 0 <= i < t.proposals.len() implies #[trigger] t.status_consistent(i) by {
        assert(s.status_consistent(i));
        assert(s.proposals[i].id == ProposalId::of_index(i));
        lemma_votes_push(s.ballots, b, s.proposals[i].id, true);
        lemma_votes_push(s.ballots, b, s.proposals[i].id, false);
    }
}

/// A request to execute a proposal leaves a valid state valid, whatever it
/// returns.
pub proof fn law_execution_keeps_validity(s: DaoState, authenticated: bool, id: ProposalId, now: u64)
    requires
        s.valid(),
    ensures
        s.after_execute(authenticated, id, now).valid(),
{
    let t = s.after_execute(authenticated, id, now);
    if s.execute_result(authenticated, id, now) is Ok {
        let p = s.position(id).unwrap();
        assert(s.proposals[p].id == id);
        assert(s.status_consistent(p));
        assert forall|i: int| 0 <= i < t.proposals.len() implies #[trigger] t.status_consistent(
            i,
        ) by {
            if i != p {
                assert(t.proposals[i] == s.proposals[i]);
                assert(s.status_consistent(i));
            }
        }
        assert forall|i: int| 0 <= i < t.proposals.len() implies {
            &&& (#[trigger] t.proposals[i]).id == ProposalId::of_index(i)
            &&& t.proposals[i].voting_deadline == t.proposals[i].created_at + t.voting_period
        } by {
            assert(s.proposals[i].id == ProposalId::of_index(i));
        }
    }
}

/// No two proposals of a valid state share an identifier.
pub proof fn law_identifiers_distinct(s: DaoState, i: int, j: int)
    requires
        s.valid(),
        0 <= i < j < s.proposals.len(),
    ensures
        s.proposals[i].id != s.proposals[j].id,
{
    assert(s.proposals[i].id == ProposalId::of_index(i));
    assert(s.proposals[j].id == ProposalId::of_index(j));
}

/// `position` finds exactly the proposal that carries the identifier.
pub proof fn law_position_finds_identifier(s: DaoState, id: ProposalId, i: int)
    requires
        s.valid(),
    ensures
        s.position(id) == Some(i) <==> (0 <= i < s.proposals.len() && s.proposals[i].id == id),
{
    if 0 <= i < s.proposals.len() {
        assert(s.proposals[i].id == ProposalId::of_index(i));
    }
}

/// The identifier given to a new proposal differs from every identifier
/// given before, and the new proposal is found under it.
pub proof fn law_new_identifier_fresh(
    s: DaoState,
    creator: Address,
    description: String,
    action_data: String,
    now: u64,
    i: int,
)
    requires
        s.valid(),
        s.proposals.len() < usize::MAX,
        0 <= i < s.proposals.len(),
    ensures
        s.after_proposal(creator, description, action_data, now).proposals.last().id
            != s.proposals[i].id,
        s.after_proposal(creator, description, action_data, now).proposals[i] == s.proposals[i],
        s.after_proposal(creator, description, action_data, now).position(
            ProposalId::of_index(s.proposals.len() as int),
        ) == Some(s.proposals.len() as int),
{
    assert(s.proposals[i].id == ProposalId::of_index(i));
}

/// A valid state holds at most one ballot for each voter and proposal.
pub proof fn law_at_most_one_ballot(s: DaoState, j: int, k: int)
    requires
        s.valid(),
        0 <= j < s.ballots.len(),
        0 <= k < s.ballots.len(),
        s.ballots[j].voter == s.ballots[k].voter,
        s.ballots[j].proposal_id == s.ballots[k].proposal_id,
    ensures
        j == k,
{
    if j < k {
        assert(!(s.ballots[j].voter == s.ballots[k].voter && s.ballots[j].proposal_id
            == s.ballots[k].proposal_id));
    } else if k < j {
        assert(!(s.ballots[k].voter == s.ballots[j].voter && s.ballots[k].proposal_id
            == s.ballots[j].proposal_id));
    }
}

/// A voter who has a ballot on a proposal can never vote on it again: every
/// further attempt is rejected, and with `AlreadyVoted` whenever it is
/// authenticated, names a valid amount and comes while voting is open.
pub proof fn law_ballot_blocks_vote(
    s: DaoState,
    voter: Address,
    authenticated: bool,
    id: ProposalId,
    amount: i128,
    balance: i128,
    now: u64,
)
    requires
        s.valid(),
        has_ballot(s.ballots, voter, id),
    ensures
        s.vote_error(voter, authenticated, id, amount, balance, now) is Some,
        s.position(id) is Some,
        authenticated && 0 < amount <= MAX_VOTE_WEIGHT && s.proposals[s.position(
            id,
        ).unwrap()].status == ProposalStatus::Active && now <= s.proposals[s.position(
            id,
        ).unwrap()].voting_deadline ==> s.vote_error(voter, authenticated, id, amount, balance, now)
            == Some(GovernanceError::AlreadyVoted),
{
    let k = choose|k: int|
        0 <= k < s.ballots.len() && (#[trigger] s.ballots[k]).voter == voter
            && s.ballots[k].proposal_id == id;
    assert(s.position(s.ballots[k].proposal_id) is Some);
}

/// After an accepted vote, a second vote of the same voter on the same
/// proposal is rejected whatever its amount, choice, balance and time, with
/// `AlreadyVoted` where it is authenticated, names a valid amount and comes
/// before the deadline has passed. The first ballot stands as it was cast.
pub proof fn law_second_vote_rejected(
    s: DaoState,
    voter: Address,
    id: ProposalId,
    amount: i128,
    in_favor: bool,
    balance: i128,
    now: u64,
    authenticated2: bool,
    amount2: i128,
    balance2: i128,
    now2: u64,
)
    requires
        s.valid(),
        s.vote_error(voter, true, id, amount, balance, now) is None,
    ensures
        s.after_vote(voter, id, amount, in_favor).vote_error(
            voter,
            authenticated2,
            id,
            amount2,
            balance2,
            now2,
        ) is Some,
        authenticated2 && 0 < amount2 <= MAX_VOTE_WEIGHT && now2 <= s.proposals[s.position(
            id,
        ).unwrap()].voting_deadline ==> s.after_vote(
            voter,
            id,
            amount,
            in_favor,
        ).vote_error(voter, authenticated2, id, amount2, balance2, now2) == Some(
            GovernanceError::AlreadyVoted,
        ),
        s.after_vote(voter, id, amount, in_favor).ballots.last().weight == amount,
        s.after_vote(voter, id, amount, in_favor).ballots.last().in_favor == in_favor,
{
    let s2 = s.after_vote(voter, id, amount, in_favor);
    let k = s.ballots.len() as int;
    assert(s2.ballots[k].voter == voter && s2.ballots[k].proposal_id == id);
    assert(has_ballot(s2.ballots, voter, id));
}

/// Ballots are never changed or removed: whatever request follows, each
/// ballot stays where it is, with its weight and its choice.
pub proof fn law_ballots_persist(
    s: DaoState,
    k: int,
    voter: Address,
    creator: Address,
    description: String,
    action_data: String,
    authenticated: bool,
    id: ProposalId,
    amount: i128,
    in_favor: bool,
    now: u64,
)
    requires
        0 <= k < s.ballots.len(),
    ensures
        s.after_vote(voter, id, amount, in_favor).ballots[k] == s.ballots[k],
        s.after_proposal(creator, description, action_data, now).ballots[k] == s.ballots[k],
        s.after_execute(authenticated, id, now).ballots[k] == s.ballots[k],
{
}

/// The two tallies of a proposal add up to the weight of all ballots cast
/// on it, and neither is negative.
pub proof fn law_tally_is_sum_of_weights(s: DaoState, id: ProposalId)
    requires
        s.valid(),
    ensures
        s.for_votes(id) + s.against_votes(id) == weight_cast(s.ballots, id),
        s.for_votes(id) >= 0,
        s.against_votes(id) >= 0,
{
    lemma_weight_cast_bound(s.ballots, id);
}

/// An accepted vote adds its amount to the tally of its choice on its
/// proposal and leaves every other tally as it was, so no tally ever
/// decreases.
pub proof fn law_vote_moves_one_tally(
    s: DaoState,
    voter: Address,
    id: ProposalId,
    amount: i128,
    in_favor: bool,
    other: ProposalId,
)
    requires
        amount > 0,
    ensures
        s.after_vote(voter, id, amount, in_favor).for_votes(id) == s.for_votes(id) + if in_favor {
            amount as int
        } else {
            0
        },
        s.after_vote(voter, id, amount, in_favor).against_votes(id) == s.against_votes(id)
            + if in_favor {
            0
        } else {
            amount as int
        },
        other != id ==> s.after_vote(voter, id, amount, in_favor).for_votes(other) == s.for_votes(
            other,
        ) && s.after_vote(voter, id, amount, in_favor).against_votes(other) == s.against_votes(
            other,
        ),
        s.after_vote(voter, id, amount, in_favor).for_votes(other) >= s.for_votes(other),
        s.after_vote(voter, id, amount, in_favor).against_votes(other) >= s.against_votes(other),
{
    let b = Ballot { voter, proposal_id: id, weight: amount, in_favor };
    lemma_votes_push(s.ballots, b, id, true);
    lemma_votes_push(s.ballots, b, id, false);
    lemma_votes_push(s.ballots, b, other, true);
    lemma_votes_push(s.ballots, b, other, false);
}

/// A proposal without ballots never passes, whatever the quorum.
pub proof fn law_no_ballots_fails(s: DaoState, id: ProposalId, now: u64)
    requires
        s.valid(),
        s.position(id) is Some,
        weight_cast(s.ballots, id) == 0,
    ensures
        !s.would_pass(id),
        s.execute_result(true, id, now) != Ok::<bool, GovernanceError>(true),
        s.status_at(id, now) != Ok::<ProposalStatus, GovernanceError>(ProposalStatus::Passed),
        s.status_at(id, now) != Ok::<ProposalStatus, GovernanceError>(ProposalStatus::Executed),
{
    lemma_weight_cast_bound(s.ballots, id);
    let i = s.position(id).unwrap();
    assert(s.proposals[i].id == id);
    assert(s.status_consistent(i));
}

/// Once the deadline has passed or the proposal has left `Active`, no vote
/// is accepted, so the tallies of the proposal are fixed.
pub proof fn law_closed_voting_rejects(
    s: DaoState,
    voter: Address,
    authenticated: bool,
    id: ProposalId,
    amount: i128,
    balance: i128,
    now: u64,
)
    requires
        s.position(id) is Some,
        s.proposals[s.position(id).unwrap()].status != ProposalStatus::Active || now
            > s.proposals[s.position(id).unwrap()].voting_deadline,
    ensures
        s.vote_error(voter, authenticated, id, amount, balance, now) is Some,
        authenticated && 0 < amount <= MAX_VOTE_WEIGHT ==> s.vote_error(
            voter,
            authenticated,
            id,
            amount,
            balance,
            now,
        ) == Some(GovernanceError::VotingClosed),
{
}

/// The status shown and the outcome of execution agree: execution applies
/// the action exactly where the status shown is `Passed`, and it resolves
/// the proposal as failed only where the status shown is `Failed`.
pub proof fn law_status_and_execution_agree(s: DaoState, id: ProposalId, now: u64)
    requires
        s.valid(),
    ensures
        s.execute_result(true, id, now) == Ok::<bool, GovernanceError>(true) <==> s.status_at(
            id,
            now,
        ) == Ok::<ProposalStatus, GovernanceError>(ProposalStatus::Passed),
        s.execute_result(true, id, now) == Ok::<bool, GovernanceError>(false) ==> s.status_at(
            id,
            now,
        ) == Ok::<ProposalStatus, GovernanceError>(ProposalStatus::Failed),
        s.status_at(id, now) == Ok::<ProposalStatus, GovernanceError>(ProposalStatus::Failed)
            ==> s.execute_result(true, id, now) != Ok::<bool, GovernanceError>(true) && !s.would_pass(id),
        s.status_at(id, now) == Ok::<ProposalStatus, GovernanceError>(ProposalStatus::Executed)
            <==> s.execute_result(true, id, now) == Err::<bool, GovernanceError>(
            GovernanceError::AlreadyExecuted,
        ),
{
    if s.position(id) is Some {
        let i = s.position(id).unwrap();
        assert(s.proposals[i].id == id);
        assert(s.status_consistent(i));
    }
}

/// After the deadline the status shown no longer depends on the time.
pub proof fn law_status_stable_after_deadline(s: DaoState, id: ProposalId, now: u64, later: u64)
    requires
        s.position(id) is Some,
        now > s.proposals[s.position(id).unwrap()].voting_deadline,
        later >= now,
    ensures
        s.status_at(id, later) == s.status_at(id, now),
{
}

/// Execution fixes the outcome: after an execution that returned `Ok`, the
/// status shown is `Executed` or `Failed` by what it returned, at every
/// time, and it is the status that was shown when execution was asked for,
/// but that `Passed` has become `Executed`.
pub proof fn law_execution_fixes_status(s: DaoState, id: ProposalId, now: u64, later: u64)
    requires
        s.valid(),
        s.execute_result(true, id, now) is Ok,
    ensures
        s.after_execute(true, id, now).status_at(id, later) == Ok::<
            ProposalStatus,
            GovernanceError,
        >(
            if s.execute_result(true, id, now) == Ok::<bool, GovernanceError>(true) {
                ProposalStatus::Executed
            } else {
                ProposalStatus::Failed
            },
        ),
        s.execute_result(true, id, now) == Ok::<bool, GovernanceError>(false) ==> s.after_execute(
            true,
            id,
            now,
        ).status_at(id, later) == s.status_at(id, now),
{
}

/// A failed or executed proposal keeps its status through every request:
/// a vote, a new proposal, or an execution of any proposal.
pub proof fn law_final_status_kept(
    s: DaoState,
    i: int,
    voter: Address,
    creator: Address,
    description: String,
    action_data: String,
    authenticated: bool,
    id: ProposalId,
    amount: i128,
    in_favor: bool,
    now: u64,
)
    requires
        s.valid(),
        0 <= i < s.proposals.len(),
        s.proposals[i].status == ProposalStatus::Failed || s.proposals[i].status
            == ProposalStatus::Executed,
    ensures
        s.after_vote(voter, id, amount, in_favor).proposals[i] == s.proposals[i],
        s.after_proposal(creator, description, action_data, now).proposals[i] == s.proposals[i],
        s.after_execute(authenticated, id, now).proposals[i] == s.proposals[i],
        s.status_at(s.proposals[i].id, now) == Ok::<ProposalStatus, GovernanceError>(
            s.proposals[i].status,
        ),
{
    assert(s.proposals[i].id == ProposalId::of_index(i));
}

/// A proposal is executed at most once: after an execution that applied
/// the action, every further request to execute it fails with
/// `AlreadyExecuted` where the caller is authenticated, and changes nothing
/// in any case.
pub proof fn law_execution_happens_once(
    s: DaoState,
    id: ProposalId,
    now: u64,
    authenticated: bool,
    later: u64,
)
    requires
        s.valid(),
        s.execute_result(true, id, now) == Ok::<bool, GovernanceError>(true),
    ensures
        s.after_execute(true, id, now).execute_result(true, id, later) == Err::<
            bool,
            GovernanceError,
        >(GovernanceError::AlreadyExecuted),
        s.after_execute(true, id, now).execute_result(authenticated, id, later) is Err,
        s.after_execute(true, id, now).after_execute(authenticated, id, later) == s.after_execute(
            true,
            id,
            now,
        ),
{
}

/// Executing an `Executed` proposal fails with `AlreadyExecuted` and leaves
/// the state as it is.
pub proof fn law_executed_is_final(s: DaoState, id: ProposalId, now: u64)
    requires
        s.position(id) is Some,
        s.proposals[s.position(id).unwrap()].status == ProposalStatus::Executed,
    ensures
        s.execute_result(true, id, now) == Err::<bool, GovernanceError>(
            GovernanceError::AlreadyExecuted,
        ),
        s.after_execute(true, id, now) == s,
{
}

} // verus!
