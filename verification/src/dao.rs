//! The executable DAO: the proposal registry and the voting engine over one
//! state, with the tallies kept beside the ballots so that a vote or a
//! query never walks them to add up weights.

use vstd::prelude::*;
use crate::model::{
    has_ballot, lemma_votes_push, lemma_weight_cast_bound, passes, resolved, votes, Ballot,
    DaoState, Proposal,
};
use crate::types::{Address, GovernanceError, ProposalId, ProposalStatus, MAX_VOTE_WEIGHT};

verus! {

/// The running totals of one proposal.
#[derive(Clone, Copy, Debug, PartialEq, Eq, Structural)]
pub struct Tally {
    pub for_votes: i128,
    pub against_votes: i128,
}

/// Decides the resolution rule on two tallies: the quorum is met and the
/// votes in favour strictly outnumber the votes against.
pub fn tally_passes(for_votes: i128, against_votes: i128, quorum: i128) -> (r: bool)
    ensures
        r == passes(for_votes as int, against_votes as int, quorum as int),
{
    let quorum_met = match for_votes.checked_add(against_votes) {
        Some(total) => total >= quorum,
        // The sum lies outside `i128`: above it where the terms are
        // positive, below it where they are negative.
        None => for_votes > 0,
    };
    quorum_met && for_votes > against_votes
}

/// Computes the status a proposal shows at time `now` from its stored
/// status, its deadline and its tallies, without changing anything.
pub fn resolve(
    status: ProposalStatus,
    voting_deadline: u64,
    for_votes: i128,
    against_votes: i128,
    quorum: i128,
    now: u64,
) -> (r: ProposalStatus)
    ensures
        r == resolved(
            status,
            voting_deadline,
            for_votes as int,
            against_votes as int,
            quorum as int,
            now,
        ),
{
    if status == ProposalStatus::Active && now > voting_deadline {
        if tally_passes(for_votes, against_votes, quorum) {
            ProposalStatus::Passed
        } else {
            ProposalStatus::Failed
        }
    } else {
        status
    }
}

/// Looks for the first ballot of `voter` on `id` among the first `upto`
/// ballots.
pub fn find_ballot_before(ballots: &Vec<Ballot>, upto: usize, voter: Address, id: ProposalId) -> (r:
    Option<usize>)
    requires
        upto <= ballots@.len(),
    ensures
        match r {
            Some(k) => k < upto && ballots@[k as int].voter == voter
                && ballots@[k as int].proposal_id == id && !has_ballot(
                ballots@.take(k as int),
                voter,
                id,
            ),
            None => !has_ballot(ballots@.take(upto as int), voter, id),
        },
{
    let mut k: usize = 0;
    while k < upto
        invariant
            k <= upto <= ballots@.len(),
            forall|j: int|
                0 <= j < k ==> !((#[trigger] ballots@[j]).voter == voter && ballots@[j].proposal_id
                    == id),
        decreases upto - k,
    {
        if ballots[k].voter == voter && ballots[k].proposal_id == id {
            proof {
                let before = ballots@.take(k as int);
                assert forall|j: int| 0 <= j < before.len() implies !((
                #[trigger] before[j]).voter == voter && before[j].proposal_id == id) by {
                    assert(before[j] == ballots@[j]);
                }
            }
            return Some(k);
        }
        k += 1;
    }
    proof {
        let prefix = ballots@.take(upto as int);
        assert forall|j: int| 0 <= j < prefix.len() implies !((#[trigger] prefix[j]).voter == voter
            && prefix[j].proposal_id == id) by {
            assert(prefix[j] == ballots@[j]);
        }
    }
    None
}

/// Looks for the first ballot of `voter` on `id`.
pub fn find_ballot(ballots: &Vec<Ballot>, voter: Address, id: ProposalId) -> (r: Option<usize>)
    ensures
        match r {
            Some(k) => k < ballots@.len() && ballots@[k as int].voter == voter
                && ballots@[k as int].proposal_id == id && !has_ballot(
                ballots@.take(k as int),
                voter,
                id,
            ),
            None => !has_ballot(ballots@, voter, id),
        },
{
    proof {
        assert(ballots@.take(ballots@.len() as int) =~= ballots@);
    }
    find_ballot_before(ballots, ballots.len(), voter, id)
}

/// No ballot on `id` means no votes on `id`.
proof fn lemma_no_votes(ballots: Seq<Ballot>, id: ProposalId, in_favor: bool)
    requires
        forall|k: int| 0 <= k < ballots.len() ==> (#[trigger] ballots[k]).proposal_id != id,
    ensures
        votes(ballots, id, in_favor) == 0,
    decreases ballots.len(),
{
    if ballots.len() > 0 {
        let rest = ballots.drop_last();
        assert forall|k: int| 0 <= k < rest.len() implies (#[trigger] rest[k]).proposal_id
            != id by {
            assert(rest[k] == ballots[k]);
        }
        lemma_no_votes(rest, id, in_favor);
        assert(ballots.last() == ballots[ballots.len() - 1]);
    }
}

/// The DAO: its parameters, its proposals in creation order, and every
/// ballot ever cast.
pub struct DAOContract {
    voting_period: u64,
    quorum: i128,
    proposals: Vec<Proposal>,
    tallies: Vec<Tally>,
    ballots: Vec<Ballot>,
}

impl View for DAOContract {
    type V = DaoState;

    closed spec fn view(&self) -> DaoState {
        DaoState {
            voting_period: self.voting_period,
            quorum: self.quorum,
            proposals: self.proposals@,
            ballots: self.ballots@,
        }
    }
}

impl DAOContract {
    /// The kept tallies are the sums over the ballots.
    pub closed spec fn tallies_kept(&self) -> bool {
        &&& self.tallies@.len() == self.proposals@.len()
        &&& forall|i: int|
            0 <= i < self.tallies@.len() ==> {
                &&& (#[trigger] self.tallies@[i]).for_votes == votes(
                    self.ballots@,
                    ProposalId::of_index(i),
                    true,
                )
                &&& self.tallies@[i].against_votes == votes(
                    self.ballots@,
                    ProposalId::of_index(i),
                    false,
                )
            }
    }

    /// Well-formedness: the state is valid and the kept tallies are right.
    pub open spec fn wf(&self) -> bool {
        self@.valid() && self.tallies_kept()
    }

    /// Sets up a DAO without proposals. `voting_period` is the length of
    /// every voting window and `quorum` the least total weight that lets a
    /// proposal pass.
    ///
    /// Fails with `NotAuthorized` where the administrator did not
    /// authenticate, else with `InvalidAmount` where `quorum` is negative.
    pub fn initialize(admin_authenticated: bool, voting_period: u64, quorum: i128) -> (r: Result<
        DAOContract,
        GovernanceError,
    >)
        ensures
            !admin_authenticated ==> r == Err::<DAOContract, GovernanceError>(
                GovernanceError::NotAuthorized,
            ),
            admin_authenticated && quorum < 0 ==> r == Err::<DAOContract, GovernanceError>(
                GovernanceError::InvalidAmount,
            ),
            admin_authenticated && quorum >= 0 ==> r is Ok && r->Ok_0.wf() && r->Ok_0@ == (DaoState {
                voting_period,
                quorum,
                proposals: Seq::empty(),
                ballots: Seq::empty(),
            }),
    {
        if !admin_authenticated {
            return Err(GovernanceError::NotAuthorized);
        }
        if quorum < 0 {
            return Err(GovernanceError::InvalidAmount);
        }
        Ok(
            DAOContract {
                voting_period,
                quorum,
                proposals: Vec::new(),
                tallies: Vec::new(),
                ballots: Vec::new(),
            },
        )
    }

    /// Rebuilds a DAO from its parts: the two parameters, the proposals in
    /// creation order and the ballots in the order they were cast.
    ///
    /// Returns `None` exactly where the parts do not make a valid state.
    pub fn restore(
        voting_period: u64,
        quorum: i128,
        proposals: Vec<Proposal>,
        ballots: Vec<Ballot>,
    ) -> (r: Option<DAOContract>)
        ensures
            match r {
                Some(d) => d.wf() && d@ == (DaoState {
                    voting_period,
                    quorum,
                    proposals: proposals@,
                    ballots: ballots@,
                }),
                None => !(DaoState {
                    voting_period,
                    quorum,
                    proposals: proposals@,
                    ballots: ballots@,
                }).valid(),
            },
    {
        let ghost state = DaoState {
            voting_period,
            quorum,
            proposals: proposals@,
            ballots: ballots@,
        };
        if quorum < 0 {
            return None;
        }
        let n = proposals.len();
        let mut tallies: Vec<Tally> = Vec::new();
        let mut i: usize = 0;
        while i < n
            invariant
                i <= n == proposals@.len(),
                tallies@.len() == i,
                forall|j: int|
                    0 <= j < i ==> {
                        &&& (#[trigger] proposals@[j]).id == ProposalId::of_index(j)
                        &&& proposals@[j].voting_deadline == proposals@[j].created_at
                            + voting_period
                    },
                forall|j: int|
                    0 <= j < i ==> (#[trigger] tallies@[j]) == (Tally {
                        for_votes: 0,
                        against_votes: 0,
                    }),
                state.proposals == proposals@,
                state.voting_period == voting_period,
            decreases n - i,
        {
            let p = &proposals[i];
            if p.id != ProposalId::from_index(i) || p.voting_deadline < p.created_at
                || p.voting_deadline - p.created_at != voting_period {
                proof {
                    assert(!(state.proposals[i as int].id == ProposalId::of_index(i as int)
                        && state.proposals[i as int].voting_deadline
                        == state.proposals[i as int].created_at + state.voting_period));
                }
                return None;
            }
            tallies.push(Tally { for_votes: 0, against_votes: 0 });
            i += 1;
        }
        let m = ballots.len();
        let mut k: usize = 0;
        while k < m
            invariant
                k <= m == ballots@.len(),
                n == proposals@.len(),
                tallies@.len() == n,
                state.ballots == ballots@,
                state.proposals == proposals@,
                forall|j: int|
                    0 <= j < k ==> {
                        &&& 0 < (#[trigger] ballots@[j]).weight <= MAX_VOTE_WEIGHT
                        &&& ballots@[j].proposal_id.index_in(n as int) is Some
                    },
                forall|j: int, l: int|
                    0 <= j < l < k ==> !((#[trigger] ballots@[j]).voter == (
                    #[trigger] ballots@[l]).voter && ballots@[j].proposal_id
                        == ballots@[l].proposal_id),
                forall|j: int|
                    0 <= j < n ==> {
                        &&& (#[trigger] tallies@[j]).for_votes == votes(
                            ballots@.take(k as int),
                            ProposalId::of_index(j),
                            true,
                        )
                        &&& tallies@[j].against_votes == votes(
                            ballots@.take(k as int),
                            ProposalId::of_index(j),
                            false,
                        )
                    },
            decreases m - k,
        {
            let b = ballots[k];
            if b.weight <= 0 || b.weight > MAX_VOTE_WEIGHT {
                proof {
                    assert(!(0 < state.ballots[k as int].weight <= MAX_VOTE_WEIGHT));
                }
                return None;
            }
            let idx = match b.proposal_id.locate(n) {
                Some(idx) => idx,
                None => {
                    proof {
                        assert(state.position(state.ballots[k as int].proposal_id) is None);
                    }
                    return None;
                },
            };
            match find_ballot_before(&ballots, k, b.voter, b.proposal_id) {
                Some(j) => {
                    proof {
                        assert(state.ballots[j as int].voter == state.ballots[k as int].voter
                            && state.ballots[j as int].proposal_id
                            == state.ballots[k as int].proposal_id);
                    }
                    return None;
                },
                None => {},
            }
            let tally = tallies[idx];
            proof {
                let prefix = ballots@.take(k as int);
                assert(ballots@.take(k as int + 1) =~= prefix.push(b));
                assert(b.proposal_id == ProposalId::of_index(idx as int));
                assert forall|j: int| 0 <= j < prefix.len() implies 0 < (#[trigger] prefix[j]).weight
                    <= MAX_VOTE_WEIGHT by {
                    assert(prefix[j] == ballots@[j]);
                }
                lemma_weight_cast_bound(prefix, b.proposal_id);
                assert(prefix.len() * MAX_VOTE_WEIGHT <= usize::MAX * MAX_VOTE_WEIGHT)
                    by (nonlinear_arith)
                    requires
                        prefix.len() <= usize::MAX,
                ;
                assert forall|j: int| 0 <= j < n implies {
                    &&& votes(prefix.push(b), ProposalId::of_index(j), true) == votes(
                        prefix,
                        ProposalId::of_index(j),
                        true,
                    ) + if j == idx && b.in_favor {
                        b.weight as int
                    } else {
                        0
                    }
                    &&& votes(prefix.push(b), ProposalId::of_index(j), false) == votes(
                        prefix,
                        ProposalId::of_index(j),
                        false,
                    ) + if j == idx && !b.in_favor {
                        b.weight as int
                    } else {
                        0
                    }
                } by {
                    lemma_votes_push(prefix, b, ProposalId::of_index(j), true);
                    lemma_votes_push(prefix, b, ProposalId::of_index(j), false);
                }
                assert forall|j: int, l: int| 0 <= j < l < k + 1 implies !((
                #[trigger] ballots@[j]).voter == (#[trigger] ballots@[l]).voter
                    && ballots@[j].proposal_id == ballots@[l].proposal_id) by {
                    if l == k {
                        assert(prefix[j] == ballots@[j]);
                    }
                }
            }
            let updated = if b.in_favor {
                Tally { for_votes: tally.for_votes + b.weight, against_votes: tally.against_votes }
            } else {
                Tally { for_votes: tally.for_votes, against_votes: tally.against_votes + b.weight }
            };
            tallies.set(idx, updated);
            k += 1;
        }
        proof {
            assert(ballots@.take(m as int) =~= ballots@);
        }
        let mut i: usize = 0;
        while i < n
            invariant
                i <= n == proposals@.len(),
                tallies@.len() == n,
                state == (DaoState {
                    voting_period,
                    quorum,
                    proposals: proposals@,
                    ballots: ballots@,
                }),
                forall|j: int|
                    0 <= j < n ==> (#[trigger] proposals@[j]).id == ProposalId::of_index(j),
                forall|j: int|
                    0 <= j < n ==> {
                        &&& (#[trigger] tallies@[j]).for_votes == votes(
                            ballots@,
                            ProposalId::of_index(j),
                            true,
                        )
                        &&& tallies@[j].against_votes == votes(
                            ballots@,
                            ProposalId::of_index(j),
                            false,
                        )
                    },
                forall|j: int| 0 <= j < i ==> #[trigger] state.status_consistent(j),
            decreases n - i,
        {
            let tally = tallies[i];
            proof {
                assert(state.proposals[i as int].id == ProposalId::of_index(i as int));
                assert(tally.for_votes == state.for_votes(state.proposals[i as int].id));
                assert(tally.against_votes == state.against_votes(state.proposals[i as int].id));
            }
            let pass = tally_passes(tally.for_votes, tally.against_votes, quorum);
            let agrees = match proposals[i].status {
                ProposalStatus::Active => true,
                ProposalStatus::Passed | ProposalStatus::Executed => pass,
                ProposalStatus::Failed => !pass,
            };
            if !agrees {
                proof {
                    assert(!state.status_consistent(i as int));
                }
                return None;
            }
            i += 1;
        }
        let d = DAOContract { voting_period, quorum, proposals, tallies, ballots };
        proof {
            assert(d@ == state);
        }
        Some(d)
    }

    /// Returns every ballot, in the order they were cast.
    pub fn ballots(&self) -> (r: &Vec<Ballot>)
        ensures
            r@ == self@.ballots,
    {
        &self.ballots
    }

    /// Files a proposal at time `now` and returns its identifier, which no
    /// earlier proposal has. The proposal is `Active` and its voting window
    /// closes at `now + voting_period`.
    ///
    /// Fails with `NotAuthorized`, and changes nothing, where the caller did
    /// not authenticate as `creator`.
    pub fn new_proposal(
        &mut self,
        creator: Address,
        creator_authenticated: bool,
        description: String,
        action_data: String,
        now: u64,
    ) -> (r: Result<ProposalId, GovernanceError>)
        requires
            old(self).wf(),
            now + old(self)@.voting_period <= u64::MAX,
        ensures
            final(self).wf(),
            !creator_authenticated ==> r == Err::<ProposalId, GovernanceError>(
                GovernanceError::NotAuthorized,
            ) && final(self)@ == old(self)@,
            creator_authenticated ==> r == Ok::<ProposalId, GovernanceError>(
                ProposalId::of_index(old(self)@.proposals.len() as int),
            ) && final(self)@ == old(self)@.after_proposal(creator, description, action_data, now),
            creator_authenticated ==> forall|i: int|
                0 <= i < old(self)@.proposals.len() ==> (#[trigger] old(self)@.proposals[i]).id
                    != r->Ok_0,
    {
        if !creator_authenticated {
            return Err(GovernanceError::NotAuthorized);
        }
        let n = self.proposals.len();
        let id = ProposalId::from_index(n);
        proof {
            lemma_no_votes(self.ballots@, id, true);
            lemma_no_votes(self.ballots@, id, false);
        }
        self.proposals.push(
            Proposal {
                id,
                creator,
                description,
                action_data,
                created_at: now,
                voting_deadline: now + self.voting_period,
                status: ProposalStatus::Active,
            },
        );
        self.tallies.push(Tally { for_votes: 0, against_votes: 0 });
        proof {
            assert(self.proposals.len() == self.proposals@.len());
            assert(self@.proposals =~= old(self)@.after_proposal(
                creator,
                description,
                action_data,
                now,
            ).proposals);
            assert forall|i: int| 0 <= i < self@.proposals.len() implies #[trigger] self@.status_consistent(i) by {
                if i < n {
                    assert(old(self)@.status_consistent(i));
                }
            }
        }
        Ok(id)
    }

    /// Returns the proposal named `id`, or `NotFound` where there is none.
    pub fn get_proposal(&self, id: ProposalId) -> (r: Result<&Proposal, GovernanceError>)
        requires
            self.wf(),
        ensures
            match self@.position(id) {
                Some(i) => r is Ok && *r->Ok_0 == self@.proposals[i] && r->Ok_0.id == id,
                None => r == Err::<&Proposal, GovernanceError>(GovernanceError::NotFound),
            },
    {
        match id.locate(self.proposals.len()) {
            Some(i) => Ok(&self.proposals[i]),
            None => Err(GovernanceError::NotFound),
        }
    }

    /// Returns every proposal, whatever its status, in creation order.
    pub fn consult_proposals(&self) -> (r: &Vec<Proposal>)
        ensures
            r@ == self@.proposals,
    {
        &self.proposals
    }

    /// Casts a ballot of `amount` for `voter` on the proposal named `id` at
    /// time `now`. `balance` is the weight the voter holds at this moment.
    /// Returns the proposal's new totals, in favour and against.
    ///
    /// The ballot keeps `amount` as its weight for good. The proposal's
    /// status is left alone. A rejected vote changes nothing; the reason is
    /// the one `DaoState::vote_error` gives.
    pub fn i_vote(
        &mut self,
        voter: Address,
        voter_authenticated: bool,
        id: ProposalId,
        amount: i128,
        in_favor: bool,
        balance: i128,
        now: u64,
    ) -> (r: Result<(i128, i128), GovernanceError>)
        requires
            old(self).wf(),
        ensures
            final(self).wf(),
            match old(self)@.vote_error(voter, voter_authenticated, id, amount, balance, now) {
                Some(e) => r == Err::<(i128, i128), GovernanceError>(e) && final(self)@ == old(self)@,
                None => r is Ok && final(self)@ == old(self)@.after_vote(
                    voter,
                    id,
                    amount,
                    in_favor,
                ) && r->Ok_0.0 == final(self)@.for_votes(id) && r->Ok_0.1 == final(self)@.against_votes(id),
            },
    {
        if !voter_authenticated {
            return Err(GovernanceError::NotAuthorized);
        }
        if amount <= 0 || amount > MAX_VOTE_WEIGHT {
            return Err(GovernanceError::InvalidAmount);
        }
        let idx = match id.locate(self.proposals.len()) {
            Some(i) => i,
            None => {
                return Err(GovernanceError::NotFound);
            },
        };
        if self.proposals[idx].status != ProposalStatus::Active || now
            > self.proposals[idx].voting_deadline {
            return Err(GovernanceError::VotingClosed);
        }
        if find_ballot(&self.ballots, voter, id).is_some() {
            return Err(GovernanceError::AlreadyVoted);
        }
        if amount > balance {
            return Err(GovernanceError::InsufficientWeight);
        }
        let ballot = Ballot { voter, proposal_id: id, weight: amount, in_favor };
        let tally = self.tallies[idx];
        proof {
            assert(id == ProposalId::of_index(idx as int));
            lemma_weight_cast_bound(self.ballots@, id);
            assert(self.ballots@.len() * MAX_VOTE_WEIGHT <= usize::MAX * MAX_VOTE_WEIGHT)
                by (nonlinear_arith)
                requires
                    self.ballots@.len() <= usize::MAX,
            ;
            assert forall|i: int| 0 <= i < self.tallies@.len() implies {
                &&& votes(self.ballots@.push(ballot), ProposalId::of_index(i), true) == votes(
                    self.ballots@,
                    ProposalId::of_index(i),
                    true,
                ) + if i == idx && in_favor {
                    amount as int
                } else {
                    0
                }
                &&& votes(self.ballots@.push(ballot), ProposalId::of_index(i), false) == votes(
                    self.ballots@,
                    ProposalId::of_index(i),
                    false,
                ) + if i == idx && !in_favor {
                    amount as int
                } else {
                    0
                }
            } by {
                lemma_votes_push(self.ballots@, ballot, ProposalId::of_index(i), true);
                lemma_votes_push(self.ballots@, ballot, ProposalId::of_index(i), false);
            }
        }
        let updated = if in_favor {
            Tally { for_votes: tally.for_votes + amount, against_votes: tally.against_votes }
        } else {
            Tally { for_votes: tally.for_votes, against_votes: tally.against_votes + amount }
        };
        self.ballots.push(ballot);
        self.tallies.set(idx, updated);
        proof {
            assert(self.ballots.len() == self.ballots@.len());
            assert(self@.ballots == old(self)@.ballots.push(ballot));
            assert forall|i: int| 0 <= i < self@.proposals.len() implies #[trigger] self@.status_consistent(i) by {
                assert(old(self)@.status_consistent(i));
                assert(self@.proposals[i].id == ProposalId::of_index(i));
            }
        }
        Ok((updated.for_votes, updated.against_votes))
    }

    /// Returns the totals of the proposal named `id`, in favour and
    /// against, or `NotFound` where there is none.
    pub fn check_vote_voices(&self, id: ProposalId) -> (r: Result<(i128, i128), GovernanceError>)
        requires
            self.wf(),
        ensures
            match self@.position(id) {
                Some(_) => r is Ok && r->Ok_0.0 == self@.for_votes(id) && r->Ok_0.1
                    == self@.against_votes(id),
                None => r == Err::<(i128, i128), GovernanceError>(GovernanceError::NotFound),
            },
    {
        match id.locate(self.proposals.len()) {
            Some(i) => {
                assert(id == ProposalId::of_index(i as int));
                let tally = self.tallies[i];
                Ok((tally.for_votes, tally.against_votes))
            },
            None => Err(GovernanceError::NotFound),
        }
    }

    /// Returns the status that the proposal named `id` shows at time `now`,
    /// or `NotFound` where there is none. An active proposal whose deadline
    /// has passed shows `Passed` or `Failed` by the resolution rule; nothing
    /// is stored.
    pub fn check_proposal_status(&self, id: ProposalId, now: u64) -> (r: Result<
        ProposalStatus,
        GovernanceError,
    >)
        requires
            self.wf(),
        ensures
            r == self@.status_at(id, now),
    {
        match id.locate(self.proposals.len()) {
            Some(i) => {
                let tally = self.tallies[i];
                proof {
                    assert(id == ProposalId::of_index(i as int));
                }
                Ok(
                    resolve(
                        self.proposals[i].status,
                        self.proposals[i].voting_deadline,
                        tally.for_votes,
                        tally.against_votes,
                        self.quorum,
                        now,
                    ),
                )
            },
            None => Err(GovernanceError::NotFound),
        }
    }

    /// Executes the proposal named `id` at time `now`, on behalf of any
    /// authenticated `caller`.
    ///
    /// Returns `Ok(true)` where the proposal passes: it is then `Executed`
    /// and its action is to be applied, once. Returns `Ok(false)` where this
    /// call resolves it as `Failed`. Every error leaves the state as it was;
    /// `DaoState::execute_result` says which error comes when.
    pub fn execute_proposal(
        &mut self,
        _caller: Address,
        caller_authenticated: bool,
        id: ProposalId,
        now: u64,
    ) -> (r: Result<bool, GovernanceError>)
        requires
            old(self).wf(),
        ensures
            final(self).wf(),
            r == old(self)@.execute_result(caller_authenticated, id, now),
            final(self)@ == old(self)@.after_execute(caller_authenticated, id, now),
    {
        if !caller_authenticated {
            return Err(GovernanceError::NotAuthorized);
        }
        let idx = match id.locate(self.proposals.len()) {
            Some(i) => i,
            None => {
                return Err(GovernanceError::NotFound);
            },
        };
        let tally = self.tallies[idx];
        proof {
            assert(id == ProposalId::of_index(idx as int));
            assert(self@.proposals[idx as int].id == id);
            assert(self@.status_consistent(idx as int));
            self.lemma_tally_fits(idx as int);
        }
        match self.proposals[idx].status {
            ProposalStatus::Executed => Err(GovernanceError::AlreadyExecuted),
            ProposalStatus::Failed => {
                if tally.for_votes + tally.against_votes < self.quorum {
                    Err(GovernanceError::QuorumNotMet)
                } else {
                    Err(GovernanceError::NotPassed)
                }
            },
            ProposalStatus::Passed => {
                self.set_status(idx, ProposalStatus::Executed);
                Ok(true)
            },
            ProposalStatus::Active => {
                if now <= self.proposals[idx].voting_deadline {
                    Err(GovernanceError::NotPassed)
                } else if tally_passes(tally.for_votes, tally.against_votes, self.quorum) {
                    self.set_status(idx, ProposalStatus::Executed);
                    Ok(true)
                } else {
                    self.set_status(idx, ProposalStatus::Failed);
                    Ok(false)
                }
            },
        }
    }

    /// Stores `status` for the `idx`-th proposal. The new status has to
    /// agree with the ballots.
    fn set_status(&mut self, idx: usize, status: ProposalStatus)
        requires
            old(self).wf(),
            idx < old(self)@.proposals.len(),
            old(self)@.with_status(idx as int, status).status_consistent(idx as int),
        ensures
            final(self).wf(),
            final(self)@ == old(self)@.with_status(idx as int, status),
    {
        self.proposals[idx].status = status;
        proof {
            assert(self@.proposals =~= old(self)@.with_status(idx as int, status).proposals);
            assert forall|i: int| 0 <= i < self@.proposals.len() implies #[trigger] self@.status_consistent(i) by {
                if i != idx {
                    assert(old(self)@.status_consistent(i));
                }
            }
        }
    }

    /// The kept tallies of the `i`-th proposal are not negative and their
    /// sum fits in an `i128`.
    proof fn lemma_tally_fits(&self, i: int)
        requires
            self.wf(),
            0 <= i < self@.proposals.len(),
        ensures
            0 <= self.tallies@[i].for_votes,
            0 <= self.tallies@[i].against_votes,
            self.tallies@[i].for_votes + self.tallies@[i].against_votes <= i128::MAX,
    {
        lemma_weight_cast_bound(self.ballots@, ProposalId::of_index(i));
        assert(self.ballots@.len() * MAX_VOTE_WEIGHT <= usize::MAX * MAX_VOTE_WEIGHT)
            by (nonlinear_arith)
            requires
                self.ballots@.len() <= usize::MAX,
        ;
    }

    /// The length of every voting window.
    pub fn voting_period(&self) -> (r: u64)
        ensures
            r == self@.voting_period,
    {
        self.voting_period
    }

    /// The least total weight that lets a proposal pass.
    pub fn quorum(&self) -> (r: i128)
        ensures
            r == self@.quorum,
    {
        self.quorum
    }
}

} // verus!
