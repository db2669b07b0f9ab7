//! Identifiers, addresses, statuses and error kinds shared by the registry
//! and the voting engine.

use vstd::prelude::*;
use crate::bytes32::{join_word, split_words, word_bytes, word_of};

verus! {

/// The largest weight a single ballot may carry (2^62).
///
/// Keeping each ballot below this bound guarantees that a tally, which adds
/// up at most `usize::MAX` ballots, always fits in an `i128`.
pub const MAX_VOTE_WEIGHT: i128 = 4_611_686_018_427_387_904i128;

/// A fixed-width 32-byte proposal identifier, held as two 128-bit words
/// (`hi` is the most significant half).
#[derive(Clone, Copy, Debug, PartialEq, Eq, Structural)]
pub struct ProposalId {
    pub hi: u128,
    pub lo: u128,
}

/// A 32-byte account key, held as two 128-bit words
/// (`hi` is the most significant half).
#[derive(Clone, Copy, Debug, PartialEq, Eq, Structural)]
pub struct Address {
    pub hi: u128,
    pub lo: u128,
}

/// The lifecycle of a proposal: `Active -> {Passed, Failed} -> Executed`.
///
/// `Failed` and `Executed` are final. `Passed` only ever moves on to
/// `Executed`.
#[derive(Clone, Copy, Debug, PartialEq, Eq, Structural)]
pub enum ProposalStatus {
    Active,
    Passed,
    Failed,
    Executed,
}

/// Every way in which a request can be rejected. A rejected request never
/// changes any state.
#[derive(Clone, Copy, Debug, PartialEq, Eq, Structural)]
pub enum GovernanceError {
    /// The caller did not authenticate as the required principal.
    NotAuthorized,
    /// No proposal has the given identifier.
    NotFound,
    /// The voter already has a ballot on the proposal.
    AlreadyVoted,
    /// The amount exceeds the voter's balance.
    InsufficientWeight,
    /// The amount is negative, zero where a positive one is needed, or
    /// above `MAX_VOTE_WEIGHT`.
    InvalidAmount,
    /// The vote came after the deadline or the proposal is no longer active.
    VotingClosed,
    /// Execution was asked for a failed proposal whose participation stayed
    /// below the quorum.
    QuorumNotMet,
    /// Execution was asked for a proposal that has not passed: voting is
    /// still open, or it failed for want of a strict majority.
    NotPassed,
    /// Execution was asked for a proposal that was executed before.
    AlreadyExecuted,
}

impl ProposalId {
    /// The thirty-two bytes of the identifier, most significant first.
    pub open spec fn bytes(self) -> Seq<u8> {
        word_bytes(self.hi) + word_bytes(self.lo)
    }

    /// The identifier that thirty-two bytes spell.
    pub open spec fn of_bytes(s: Seq<u8>) -> ProposalId
        recommends
            s.len() == 32,
    {
        ProposalId { hi: word_of(s.subrange(0, 16)), lo: word_of(s.subrange(16, 32)) }
    }

    /// Reads an identifier from its thirty-two bytes.
    pub fn from_bytes(bytes: &[u8; 32]) -> (id: ProposalId)
        ensures
            id == Self::of_bytes(bytes@),
    {
        ProposalId { hi: join_word(bytes, 0), lo: join_word(bytes, 16) }
    }

    /// Writes the identifier as thirty-two bytes.
    pub fn to_bytes(&self) -> (r: [u8; 32])
        ensures
            r@ == self.bytes(),
    {
        split_words(self.hi, self.lo)
    }

    /// The identifier of the `n`-th proposal ever created, counting from 0.
    pub open spec fn of_index(n: int) -> ProposalId {
        ProposalId { hi: 0, lo: n as u128 }
    }

    /// Computes the identifier of the `n`-th proposal.
    pub fn from_index(n: usize) -> (id: ProposalId)
        ensures
            id == Self::of_index(n as int),
    {
        ProposalId { hi: 0, lo: n as u128 }
    }

    /// The position a registry of `len` proposals gives to this identifier,
    /// if it issued it.
    pub open spec fn index_in(self, len: int) -> Option<int> {
        if self.hi == 0 && (self.lo as int) < len {
            Some(self.lo as int)
        } else {
            None
        }
    }

    /// Finds the position of this identifier among `len` issued ones.
    pub fn locate(&self, len: usize) -> (r: Option<usize>)
        ensures
            match r {
                Some(i) => self.index_in(len as int) == Some(i as int),
                None => self.index_in(len as int) is None,
            },
    {
        if self.hi == 0 && self.lo < len as u128 {
            Some(self.lo as usize)
        } else {
            None
        }
    }
}

impl Address {
    /// The thirty-two bytes of the key, most significant first.
    pub open spec fn bytes(self) -> Seq<u8> {
        word_bytes(self.hi) + word_bytes(self.lo)
    }

    /// The key that thirty-two bytes spell.
    pub open spec fn of_bytes(s: Seq<u8>) -> Address
        recommends
            s.len() == 32,
    {
        Address { hi: word_of(s.subrange(0, 16)), lo: word_of(s.subrange(16, 32)) }
    }

    /// Reads a key from its thirty-two bytes.
    pub fn from_bytes(bytes: &[u8; 32]) -> (address: Address)
        ensures
            address == Self::of_bytes(bytes@),
    {
        Address { hi: join_word(bytes, 0), lo: join_word(bytes, 16) }
    }

    /// Writes the key as thirty-two bytes.
    pub fn to_bytes(&self) -> (r: [u8; 32])
        ensures
            r@ == self.bytes(),
    {
        split_words(self.hi, self.lo)
    }
}

} // verus!
