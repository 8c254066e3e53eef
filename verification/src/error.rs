//! Errors of the governance engine.
//!
//! Every rejected operation leaves the store unchanged: the engine's
//! contracts state, for each error, exactly when it is returned.

use vstd::prelude::*;

use crate::state::{ProposalId, QueryId, ReplyId};
use crate::sync_state::SyncStateError;

verus! {

#[derive(Debug, PartialEq, Eq)]
pub enum InterchainGovError {
    /// A state-synchronization precondition was violated.
    SyncState(SyncStateError),
    /// A proposal with this identifier is already tracked.
    ProposalAlreadyExists(ProposalId),
    /// No proposal with this identifier is tracked.
    ProposalNotFound(ProposalId),
    /// A member list carries the same peer twice.
    MemberAlreadyExists { member: String },
    /// A peer message arrived from a module other than this one.
    UnauthorizedIbcModule(String),
    /// A peer message arrived that the group never authorized.
    UnauthorizedIbcMessage,
    /// A peer message was addressed to a different peer.
    WrongChain { expected: String, actual: String },
    /// The proposal is past its expiration.
    ProposalExpired(ProposalId),
    /// The proposal is still open for votes.
    ProposalStillOpen(ProposalId),
    /// The proposal is not in the phase the operation requires.
    InvalidProposalState {
        prop_id: ProposalId,
        expected_state: Option<crate::data_state::DataState>,
    },
    /// Acknowledgments for the proposal are still outstanding.
    OutstandingAcks(ProposalId),
    /// Requested vote results have not all arrived yet.
    VotesStillPending(ProposalId),
    /// Requested governance tallies have not all arrived yet.
    GovVotesStillPending(ProposalId),
    /// Vote results were never requested for the proposal.
    MissingVoteResults(ProposalId),
    /// Vote results for the proposal are already complete.
    VotesAlreadyFinalized(ProposalId),
    /// Governance tallies for the proposal were already queried.
    GovVotesAlreadyQueried(ProposalId),
    /// No local vote was recorded for the proposal.
    VoteNotFound(ProposalId),
    /// A vote result arrived for a peer it was never requested from.
    UnrequestedVote { chain: String, prop_id: ProposalId },
    /// A vote result arrived for a peer that already reported one.
    ExistingVoteResult { chain: String, prop_id: ProposalId },
    /// A registration reply arrived that no pending request matches.
    UnknownReply(ReplyId),
    /// A query result arrived that no pending query matches.
    UnknownQuery(QueryId),
}

} // verus!
