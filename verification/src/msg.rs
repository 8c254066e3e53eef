//! Message shapes exchanged with peers and with local callers.
//!
//! These are payload shapes, not wire framing: the transport around the
//! engine serializes and delivers them.

use vstd::prelude::*;

use crate::data_state::DataState;
use crate::state::{
    Governance, Members, Proposal, ProposalId, ProposalMsg, ProposalOutcome, ProposalRecord,
    QueryId, ReplyId, Vote, VoteResult,
};

verus! {

/// Instantiation parameters: the only groups whose join invitation this
/// node accepts.
#[derive(Debug)]
pub struct InterchainGovInstantiateMsg {
    pub accept_proposal_from_gov: Members,
}

/// Local execute messages.
#[derive(Debug)]
pub enum InterchainGovExecuteMsg {
    /// Called when this node wants to create a proposal.
    Propose { proposal: ProposalMsg, proposer: String },
    /// Broadcast the finalization of a fully acknowledged proposal.
    Finalize { prop_id: ProposalId },
    /// Execute a proposal after all vote results arrived.
    Execute { prop_id: ProposalId },
    /// Vote on a finalized proposal.
    VoteProposal { prop_id: ProposalId, governance: Governance, vote: Vote },
    /// Request vote results from the other members.
    RequestVoteResults { prop_id: ProposalId },
    /// Request the other members' authoritative governance tallies.
    RequestGovVoteDetails { prop_id: ProposalId },
    /// Only accept join invitations for groups with these members.
    SetAcceptGovInvite { members: Members },
    /// Overwrite the member set directly, for testing.
    TestAddMembers { members: Members },
}

#[derive(Debug)]
pub struct InterchainGovMigrateMsg {}

/// Messages sent between peers.
#[derive(Debug)]
pub enum InterchainGovIbcMsg {
    /// This node is asked to join a group with the given members.
    JoinGov { members: Members },
    /// A peer announces a proposal to this node.
    ProposeProposal { prop_hash: ProposalId, prop: Proposal, chain: String },
    /// A peer tells this node to commit its pending copy.
    FinalizeProposal { prop_hash: ProposalId },
    /// A peer reports the tallied outcome of an executed proposal.
    ProposalResult { prop_hash: ProposalId, outcome: ProposalOutcome },
}

/// Correlation payloads attached to outbound messages; each comes back
/// with the acknowledgment it belongs to.
#[derive(Debug)]
pub enum InterchainGovIbcCallbackMsg {
    JoinGov { proposed_to: String },
    FinalizeProposal { prop_hash: ProposalId, proposed_to: String },
    ProposeProposal { prop_hash: ProposalId, proposed_to: String },
    ProposalResult { prop_hash: ProposalId, proposed_to: String },
}

/// One outbound peer message together with its correlation payload.
#[derive(Debug)]
pub struct IbcAction {
    pub host: String,
    pub msg: InterchainGovIbcMsg,
    pub callback: InterchainGovIbcCallbackMsg,
}

/// One outbound read-query for a peer's local vote.
#[derive(Debug)]
pub struct VoteQuery {
    pub host: String,
    pub prop_id: ProposalId,
}

/// One outbound registration call for a peer's authoritative tally,
/// correlated by the assigned reply identifier.
#[derive(Debug)]
pub struct TallyRegistration {
    pub host: String,
    pub reply_id: ReplyId,
}

/// Local query messages.
#[derive(Debug)]
pub enum InterchainGovQueryMsg {
    Config {},
    Members {},
    Proposals { proposal_ids: Vec<ProposalId> },
    Proposal { prop_id: ProposalId },
    ProposalState { prop_id: ProposalId },
    Vote { prop_id: ProposalId },
    VoteResults { prop_id: ProposalId },
}

/// Privileged messages pushed by the host: the out-of-band delivery of a
/// ready query result.
#[derive(Debug)]
pub enum InterchainGovSudoMsg {
    KVQueryResult { query_id: QueryId },
}

#[derive(Debug)]
pub struct ConfigResponse {}

#[derive(Debug)]
pub struct MembersResponse {
    pub members: Members,
}

#[derive(Debug)]
pub struct ProposalsResponse {
    pub proposals: Vec<ProposalResponse>,
}

#[derive(Debug)]
pub struct ProposalResponse {
    pub prop_id: ProposalId,
    pub prop: Proposal,
    pub state: Option<DataState>,
}

/// The overlay entry of one proposal, as reported to callers.
#[derive(Debug)]
pub struct MapState {
    pub proposal_id: ProposalId,
    pub state: DataState,
    pub record: ProposalRecord,
}

#[derive(Debug)]
pub struct VoteResponse {
    pub prop_id: ProposalId,
    pub chain: String,
    pub governance: Governance,
    pub vote: Vote,
}

#[derive(Debug)]
pub struct VoteResultsResponse {
    pub prop_id: ProposalId,
    pub results: Vec<VoteResult>,
}

} // verus!
