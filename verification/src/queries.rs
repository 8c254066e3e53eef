//! Read-only queries exposed to local callers.

use vstd::prelude::*;

use crate::error::InterchainGovError;
use crate::gov::InterchainGov;
use crate::msg::{
    ConfigResponse, MapState, MembersResponse, ProposalResponse, ProposalsResponse, VoteResponse,
    VoteResultsResponse,
};
use crate::state::{ProposalRecord, VoteResult};
use crate::sync_state::StateChange;

verus! {

/// Copy a list of vote results.
fn clone_vote_results(v: &Vec<VoteResult>) -> (r: Vec<VoteResult>)
    ensures
        r@ == v@,
{
    let mut r: Vec<VoteResult> = Vec::new();
    let mut i: usize = 0;
    while i < v.len()
        invariant
            0 <= i <= v.len(),
            r@.len() == i,
            forall|j: int| 0 <= j < i ==> r@[j] == v@[j],
        decreases v.len() - i,
    {
        r.push(v[i].clone());
        i = i + 1;
    }
    proof {
        assert(r@ =~= v@);
    }
    r
}

impl InterchainGov {
    pub fn query_config(&self) -> ConfigResponse {
        ConfigResponse {}
    }

    /// The committed member set.
    pub fn query_members(&self) -> (r: MembersResponse)
        ensures
            r.members.names() == self.members_state.member_names(),
    {
        MembersResponse { members: self.members_state.load_members() }
    }

    /// One committed proposal together with its overlay phase.
    pub fn query_proposal(&self, prop_id: String) -> (r: Result<
        ProposalResponse,
        InterchainGovError,
    >)
        ensures
            r is Ok <==> self.proposal_state.base_map().contains_key(prop_id@),
            r matches Ok(resp) ==> resp.prop_id@ == prop_id@ && resp.prop.eqv(
                self.proposal_state.base_map()[prop_id@].proposal,
            ) && (resp.state is None <==> !self.proposal_state.has_overlay(prop_id@)),
            r matches Err(e) ==> (e matches InterchainGovError::ProposalNotFound(p) && p@
                == prop_id@),
    {
        let record = match self.proposal_state.load(prop_id.as_str()) {
            Ok(rec) => rec,
            Err(_) => {
                return Err(InterchainGovError::ProposalNotFound(prop_id));
            },
        };
        let state = self.proposal_state.data_state(prop_id.as_str());
        Ok(ProposalResponse { prop: record.proposal.clone(), prop_id, state })
    }

    /// The listed proposals, each with its overlay phase. Fails on the
    /// first identifier without a committed entry.
    pub fn query_proposals(&self, proposal_ids: Vec<String>) -> (r: Result<
        ProposalsResponse,
        InterchainGovError,
    >)
        ensures
            r is Ok <==> forall|i: int|
                0 <= i < proposal_ids@.len() ==> self.proposal_state.base_map().contains_key(
                    (#[trigger] proposal_ids@[i])@,
                ),
            r matches Ok(resp) ==> resp.proposals@.len() == proposal_ids@.len() && forall|i: int|
                0 <= i < proposal_ids@.len() ==> (#[trigger] resp.proposals@[i]).prop_id@
                    == proposal_ids@[i]@ && resp.proposals@[i].prop.eqv(
                    self.proposal_state.base_map()[proposal_ids@[i]@].proposal,
                ),
    {
        let mut proposals: Vec<ProposalResponse> = Vec::new();
        let mut i: usize = 0;
        while i < proposal_ids.len()
            invariant
                0 <= i <= proposal_ids@.len(),
                proposals@.len() == i,
                forall|j: int|
                    0 <= j < i ==> self.proposal_state.base_map().contains_key(
                        (#[trigger] proposal_ids@[j])@,
                    ),
                forall|j: int|
                    0 <= j < i ==> (#[trigger] proposals@[j]).prop_id@ == proposal_ids@[j]@
                        && proposals@[j].prop.eqv(
                        self.proposal_state.base_map()[proposal_ids@[j]@].proposal,
                    ),
            decreases proposal_ids@.len() - i,
        {
            let id = proposal_ids[i].clone();
            match self.query_proposal(id) {
                Ok(resp) => {
                    proposals.push(resp);
                },
                Err(e) => {
                    return Err(e);
                },
            }
            i = i + 1;
        }
        Ok(ProposalsResponse { proposals })
    }

    /// The overlay entry of one proposal, or `None` when the proposal is
    /// finalized.
    pub fn query_prop_state(&self, prop_id: String) -> (r: Option<MapState>)
        ensures
            r is Some <==> self.proposal_state.has_overlay(prop_id@),
            r matches Some(s) ==> s.proposal_id@ == prop_id@ && !(s.state is Finalized),
    {
        let state = match self.proposal_state.data_state(prop_id.as_str()) {
            Some(st) => st,
            None => {
                return None;
            },
        };
        let change = match self.proposal_state.load_status(prop_id.as_str(), state) {
            Some(c) => c,
            None => {
                return None;
            },
        };
        let record: ProposalRecord = match change {
            StateChange::Proposal(rec) => rec.clone(),
            StateChange::Backup(rec) => rec.clone(),
        };
        Some(MapState { proposal_id: prop_id, state, record })
    }

    /// This node's recorded vote on one proposal.
    pub fn query_vote(&self, prop_id: String) -> (r: Result<VoteResponse, InterchainGovError>)
        ensures
            r is Ok <==> self.votes@.contains_key(prop_id@),
            r matches Ok(resp) ==> resp.prop_id@ == prop_id@ && resp.chain@
                == self.self_chain_name() && resp.vote == self.votes@[prop_id@].vote
                && resp.governance == self.votes@[prop_id@].governance,
            r matches Err(e) ==> (e matches InterchainGovError::VoteNotFound(p) && p@ == prop_id@),
    {
        let gv = match self.votes.get(prop_id.as_str()) {
            Some(gv) => gv,
            None => {
                return Err(InterchainGovError::VoteNotFound(prop_id));
            },
        };
        let chain = self.members_state.self_chain.clone();
        Ok(VoteResponse { governance: gv.governance.clone(), vote: gv.vote, prop_id, chain })
    }

    /// The requested peer votes on one proposal; empty when none were
    /// requested.
    pub fn query_vote_results(&self, prop_id: String) -> (r: VoteResultsResponse)
        ensures
            r.prop_id@ == prop_id@,
            self.vote_results@.contains_key(prop_id@) ==> r.results@
                == self.vote_results@[prop_id@]@,
            !self.vote_results@.contains_key(prop_id@) ==> r.results@.len() == 0,
    {
        let results = match self.vote_results.get(prop_id.as_str()) {
            Some(list) => clone_vote_results(list),
            None => Vec::new(),
        };
        VoteResultsResponse { prop_id, results }
    }
}

} // verus!
