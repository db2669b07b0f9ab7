//! Token-weighted governance: a registry of proposals and a voting engine
//! that records one ballot per voter and proposal, keeps the tallies, and
//! gates execution on a quorum and a strict majority once the voting
//! window has closed.

pub mod bytes32;
pub mod types;
pub mod model;
pub mod dao;
pub mod laws;

pub use crate::dao::{DAOContract, Tally};
pub use crate::model::{Ballot, DaoState, Proposal};
pub use crate::types::{Address, GovernanceError, ProposalId, ProposalStatus, MAX_VOTE_WEIGHT};
