//! The mathematical model of the governance state: proposals, ballots, the
//! tally and resolution rules, and the effect of each request on the state.

use vstd::prelude::*;
use crate::types::{Address, GovernanceError, ProposalId, ProposalStatus, MAX_VOTE_WEIGHT};

verus! {

/// A governance item. Everything but `status` is fixed at creation.
#[derive(Clone, Debug, PartialEq, Eq)]
pub struct Proposal {
    pub id: ProposalId,
    pub creator: Address,
    pub description: String,
    pub action_data: String,
    pub created_at: u64,
    pub voting_deadline: u64,
    pub status: ProposalStatus,
}

/// One voter's recorded choice on one proposal. `weight` is the amount the
/// voter committed when the ballot was cast; it never changes afterwards.
#[derive(Clone, Copy, Debug, PartialEq, Eq, Structural)]
pub struct Ballot {
    pub voter: Address,
    pub proposal_id: ProposalId,
    pub weight: i128,
    pub in_favor: bool,
}

/// The sum of the weights of the ballots cast on `id` with choice `in_favor`.
pub open spec fn votes(ballots: Seq<Ballot>, id: ProposalId, in_favor: bool) -> int
    decreases ballots.len(),
{
    if ballots.len() == 0 {
        0
    } else {
        let b = ballots.last();
        votes(ballots.drop_last(), id, in_favor) + if b.proposal_id == id && b.in_favor
            == in_favor {
            b.weight as int
        } else {
            0
        }
    }
}

/// The sum of the weights of all ballots cast on `id`, whatever their choice.
pub open spec fn weight_cast(ballots: Seq<Ballot>, id: ProposalId) -> int
    decreases ballots.len(),
{
    if ballots.len() == 0 {
        0
    } else {
        let b = ballots.last();
        weight_cast(ballots.drop_last(), id) + if b.proposal_id == id {
            b.weight as int
        } else {
            0
        }
    }
}

/// Whether `voter` has a ballot on `id`.
pub open spec fn has_ballot(ballots: Seq<Ballot>, voter: Address, id: ProposalId) -> bool {
    exists|k: int|
        0 <= k < ballots.len() && (#[trigger] ballots[k]).voter == voter && ballots[k].proposal_id
            == id
}

/// The resolution rule: the quorum is met and the votes in favour strictly
/// outnumber the votes against. A tie fails.
pub open spec fn passes(for_votes: int, against_votes: int, quorum: int) -> bool {
    for_votes + against_votes >= quorum && for_votes > against_votes
}

/// The status a proposal shows at time `now`: an active proposal whose
/// deadline has passed shows the outcome of the resolution rule; any other
/// shows its stored status.
pub open spec fn resolved(
    status: ProposalStatus,
    voting_deadline: u64,
    for_votes: int,
    against_votes: int,
    quorum: int,
    now: u64,
) -> ProposalStatus {
    if status == ProposalStatus::Active && now > voting_deadline {
        if passes(for_votes, against_votes, quorum) {
            ProposalStatus::Passed
        } else {
            ProposalStatus::Failed
        }
    } else {
        status
    }
}

/// The abstract state of the DAO: its two parameters, the proposals in
/// creation order, and the ballots in the order they were cast.
pub struct DaoState {
    pub voting_period: u64,
    pub quorum: i128,
    pub proposals: Seq<Proposal>,
    pub ballots: Seq<Ballot>,
}

impl DaoState {
    /// The position of the proposal named `id`, if there is one.
    pub open spec fn position(self, id: ProposalId) -> Option<int> {
        id.index_in(self.proposals.len() as int)
    }

    /// The votes in favour of `id`.
    pub open spec fn for_votes(self, id: ProposalId) -> int {
        votes(self.ballots, id, true)
    }

    /// The votes against `id`.
    pub open spec fn against_votes(self, id: ProposalId) -> int {
        votes(self.ballots, id, false)
    }

    /// Whether the ballots on `id` satisfy the resolution rule.
    pub open spec fn would_pass(self, id: ProposalId) -> bool {
        passes(self.for_votes(id), self.against_votes(id), self.quorum as int)
    }

    /// The stored status of the `i`-th proposal agrees with its ballots:
    /// only a proposal that satisfies the resolution rule is `Passed` or
    /// `Executed`, and a `Failed` one does not satisfy it.
    pub open spec fn status_consistent(self, i: int) -> bool {
        match self.proposals[i].status {
            ProposalStatus::Active => true,
            ProposalStatus::Passed | ProposalStatus::Executed => self.would_pass(
                self.proposals[i].id,
            ),
            ProposalStatus::Failed => !self.would_pass(self.proposals[i].id),
        }
    }

    /// The invariant of the governance state.
    pub open spec fn valid(self) -> bool {
        &&& self.quorum >= 0
        &&& self.proposals.len() <= usize::MAX
        &&& self.ballots.len() <= usize::MAX
        &&& forall|i: int|
            0 <= i < self.proposals.len() ==> {
                &&& (#[trigger] self.proposals[i]).id == ProposalId::of_index(i)
                &&& self.proposals[i].voting_deadline == self.proposals[i].created_at
                    + self.voting_period
            }
        &&& forall|i: int| 0 <= i < self.proposals.len() ==> #[trigger] self.status_consistent(i)
        &&& forall|k: int|
            0 <= k < self.ballots.len() ==> {
                &&& 0 < (#[trigger] self.ballots[k]).weight <= MAX_VOTE_WEIGHT
                &&& self.position(self.ballots[k].proposal_id) is Some
            }
        &&& forall|j: int, k: int|
            0 <= j < k < self.ballots.len() ==> !((#[trigger] self.ballots[j]).voter == (
            #[trigger] self.ballots[k]).voter && self.ballots[j].proposal_id
                == self.ballots[k].proposal_id)
    }

    /// The state after a proposal was created at time `now`.
    pub open spec fn after_proposal(
        self,
        creator: Address,
        description: String,
        action_data: String,
        now: u64,
    ) -> DaoState {
        DaoState {
            proposals: self.proposals.push(
                Proposal {
                    id: ProposalId::of_index(self.proposals.len() as int),
                    creator,
                    description,
                    action_data,
                    created_at: now,
                    voting_deadline: (now + self.voting_period) as u64,
                    status: ProposalStatus::Active,
                },
            ),
            ..self
        }
    }

    /// Why a vote is rejected, or `None` where it is accepted. The checks
    /// come in this order: authentication, amount, proposal, voting window,
    /// earlier ballot, balance. A vote cast exactly at the deadline is still
    /// in the window.
    pub open spec fn vote_error(
        self,
        voter: Address,
        authenticated: bool,
        id: ProposalId,
        amount: i128,
        balance: i128,
        now: u64,
    ) -> Option<GovernanceError> {
        if !authenticated {
            Some(GovernanceError::NotAuthorized)
        } else if amount <= 0 || amount > MAX_VOTE_WEIGHT {
            Some(GovernanceError::InvalidAmount)
        } else if self.position(id) is None {
            Some(GovernanceError::NotFound)
        } else if self.proposals[self.position(id).unwrap()].status != ProposalStatus::Active
            || now > self.proposals[self.position(id).unwrap()].voting_deadline {
            Some(GovernanceError::VotingClosed)
        } else if has_ballot(self.ballots, voter, id) {
            Some(GovernanceError::AlreadyVoted)
        } else if amount > balance {
            Some(GovernanceError::InsufficientWeight)
        } else {
            None
        }
    }

    /// The state after an accepted vote: one more ballot, nothing else.
    pub open spec fn after_vote(
        self,
        voter: Address,
        id: ProposalId,
        amount: i128,
        in_favor: bool,
    ) -> DaoState {
        DaoState {
            ballots: self.ballots.push(
                Ballot { voter, proposal_id: id, weight: amount, in_favor },
            ),
            ..self
        }
    }

    /// The status that the proposal named `id` shows at time `now`.
    pub open spec fn status_at(self, id: ProposalId, now: u64) -> Result<
        ProposalStatus,
        GovernanceError,
    > {
        match self.position(id) {
            None => Err(GovernanceError::NotFound),
            Some(i) => Ok(
                resolved(
                    self.proposals[i].status,
                    self.proposals[i].voting_deadline,
                    self.for_votes(id),
                    self.against_votes(id),
                    self.quorum as int,
                    now,
                ),
            ),
        }
    }

    /// What a request to execute the proposal named `id` at time `now`
    /// returns: `Ok(true)` where the proposal passes and its action is to be
    /// applied, `Ok(false)` where this request resolves it as failed, and
    /// an error otherwise.
    pub open spec fn execute_result(self, authenticated: bool, id: ProposalId, now: u64) -> Result<
        bool,
        GovernanceError,
    > {
        if !authenticated {
            Err(GovernanceError::NotAuthorized)
        } else {
            match self.position(id) {
                None => Err(GovernanceError::NotFound),
                Some(i) => match self.proposals[i].status {
                    ProposalStatus::Executed => Err(GovernanceError::AlreadyExecuted),
                    ProposalStatus::Failed => if self.for_votes(id) + self.against_votes(id)
                        < self.quorum {
                        Err(GovernanceError::QuorumNotMet)
                    } else {
                        Err(GovernanceError::NotPassed)
                    },
                    ProposalStatus::Passed => Ok(true),
                    ProposalStatus::Active => if now <= self.proposals[i].voting_deadline {
                        Err(GovernanceError::NotPassed)
                    } else {
                        Ok(self.would_pass(id))
                    },
                },
            }
        }
    }

    /// The state in which the `i`-th proposal has the status `status`.
    pub open spec fn with_status(self, i: int, status: ProposalStatus) -> DaoState {
        DaoState {
            proposals: self.proposals.update(i, Proposal { status, ..self.proposals[i] }),
            ..self
        }
    }

    /// The state after a request to execute the proposal named `id`: where
    /// the request returns `Ok(true)` the proposal is `Executed`, where it
    /// returns `Ok(false)` the proposal is `Failed`, and where it returns an
    /// error nothing has changed.
    pub open spec fn after_execute(self, authenticated: bool, id: ProposalId, now: u64) -> DaoState {
        match self.execute_result(authenticated, id, now) {
            Ok(true) => self.with_status(self.position(id).unwrap(), ProposalStatus::Executed),
            Ok(false) => self.with_status(self.position(id).unwrap(), ProposalStatus::Failed),
            Err(_) => self,
        }
    }
}

/// Adding a ballot adds its weight to the one tally it belongs to and
/// leaves every other tally as it was.
pub proof fn lemma_votes_push(ballots: Seq<Ballot>, b: Ballot, id: ProposalId, in_favor: bool)
    ensures
        votes(ballots.push(b), id, in_favor) == votes(ballots, id, in_favor) + if b.proposal_id
            == id && b.in_favor == in_favor {
            b.weight as int
        } else {
            0
        },
        weight_cast(ballots.push(b), id) == weight_cast(ballots, id) + if b.proposal_id == id {
            b.weight as int
        } else {
            0
        },
{
    assert(ballots.push(b).drop_last() =~= ballots);
    assert(ballots.push(b).last() == b);
}

/// Where every ballot weighs between 1 and `MAX_VOTE_WEIGHT`, a tally lies
/// between 0 and `MAX_VOTE_WEIGHT` times the number of ballots.
pub proof fn lemma_weight_cast_bound(ballots: Seq<Ballot>, id: ProposalId)
    requires
        forall|k: int|
            0 <= k < ballots.len() ==> 0 < (#[trigger] ballots[k]).weight <= MAX_VOTE_WEIGHT,
    ensures
        0 <= votes(ballots, id, true),
        0 <= votes(ballots, id, false),
        votes(ballots, id, true) + votes(ballots, id, false) == weight_cast(ballots, id),
        weight_cast(ballots, id) <= ballots.len() * MAX_VOTE_WEIGHT,
    decreases ballots.len(),
{
    if ballots.len() > 0 {
        let rest = ballots.drop_last();
        assert forall|k: int| 0 <= k < rest.len() implies 0 < (#[trigger] rest[k]).weight
            <= MAX_VOTE_WEIGHT by {
            assert(rest[k] == ballots[k]);
        }
        lemma_weight_cast_bound(rest, id);
        assert(0 < ballots.last().weight <= MAX_VOTE_WEIGHT);
        assert(ballots.len() * MAX_VOTE_WEIGHT == rest.len() * MAX_VOTE_WEIGHT + MAX_VOTE_WEIGHT)
            by (nonlinear_arith)
            requires
                ballots.len() == rest.len() + 1,
        ;
    }
}

} // verus!
