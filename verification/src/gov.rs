//! The coordinating state machine of the governance engine.
//!
//! One value of [`InterchainGov`] is the whole replicated state of one
//! node: the synchronized member set, the proposal overlay, the recorded
//! votes and vote results, and the correlation tables of the external
//! tally queries. Every operation is one atomic transition of this value;
//! a rejected operation leaves it unchanged.

use vstd::hash_map::{HashMapWithView, StringHashMap};
use vstd::prelude::*;

use crate::error::InterchainGovError;
use crate::hash::proposal_id_of;
use crate::map_sync::MapStateSyncController;
use crate::members_sync::MembersSyncState;
use crate::msg::{IbcAction, InterchainGovIbcCallbackMsg, InterchainGovIbcMsg};
use crate::names::{clone_names, remove_name};
use crate::state::{
    FinalizedProposal, GovQueryResult, GovernanceVote, Members, Proposal, ProposalAction,
    ProposalMsg, ProposalRecord, QueryTarget, Threshold, Vote, VoteResult,
};
use crate::sync_state::{StateChange, SyncStateError};

verus! {

/// No peer reports two vote results for the same proposal.
pub open spec fn unique_result_chains(rs: Seq<VoteResult>) -> bool {
    forall|i: int, j: int| 0 <= i < j < rs.len() ==> rs[i].chain@ != rs[j].chain@
}

/// No peer has two tally queries for the same proposal.
pub open spec fn unique_tally_chains(rs: Seq<GovQueryResult>) -> bool {
    forall|i: int, j: int| 0 <= i < j < rs.len() ==> rs[i].chain@ != rs[j].chain@
}

/// The replicated state of one node.
pub struct InterchainGov {
    /// The synchronized member set.
    pub members_state: MembersSyncState,
    /// The synchronized proposals: base entries, overlays and per-proposal
    /// outstanding acknowledgments.
    pub proposal_state: MapStateSyncController<ProposalRecord>,
    /// Executed proposals with their tallied outcomes.
    pub finalized_proposals: StringHashMap<FinalizedProposal>,
    /// This node's vote per proposal.
    pub votes: StringHashMap<GovernanceVote>,
    /// Requested peer votes per proposal; an entry of `None` is requested
    /// but still pending, an absent peer was never asked.
    pub vote_results: StringHashMap<Vec<VoteResult>>,
    /// Requested authoritative tallies per proposal.
    pub gov_vote_queries: StringHashMap<Vec<GovQueryResult>>,
    /// Registration calls awaiting their reply, by reply identifier.
    pub pending_replies: HashMapWithView<u64, QueryTarget>,
    /// Established remote queries awaiting their pushed result, by query
    /// identifier.
    pub pending_queries: HashMapWithView<u64, QueryTarget>,
    /// The only groups whose join invitation this node accepts.
    pub allow_joining_gov: Members,
}

impl InterchainGov {
    /// The name of this node.
    pub open spec fn self_chain_name(self) -> Seq<char> {
        self.members_state.self_chain@
    }

    /// A proposal is known when a committed entry or any overlay exists
    /// for its identifier.
    pub open spec fn known_proposal(self, id: Seq<char>) -> bool {
        self.proposal_state.base_map().contains_key(id) || self.proposal_state.has_overlay(id)
    }

    /// The vote and correlation state, which most synchronization steps
    /// leave untouched.
    pub open spec fn same_vote_state(a: Self, b: Self) -> bool {
        &&& a.finalized_proposals@ == b.finalized_proposals@
        &&& a.votes@ == b.votes@
        &&& a.vote_results@ == b.vote_results@
        &&& a.gov_vote_queries@ == b.gov_vote_queries@
        &&& a.pending_replies@ == b.pending_replies@
        &&& a.pending_queries@ == b.pending_queries@
        &&& a.allow_joining_gov == b.allow_joining_gov
    }

    pub open spec fn well_formed(self) -> bool {
        &&& self.members_state.well_formed()
        &&& self.proposal_state.well_formed()
        &&& self.allow_joining_gov.well_formed()
        &&& forall|k: Seq<char>|
            #[trigger] self.vote_results@.contains_key(k) ==> unique_result_chains(
                self.vote_results@[k]@,
            )
        &&& forall|k: Seq<char>|
            #[trigger] self.gov_vote_queries@.contains_key(k) ==> unique_tally_chains(
                self.gov_vote_queries@[k]@,
            )
    }

    /// The state of a freshly instantiated node: a group of itself alone,
    /// no proposals, no votes, no pending queries.
    pub fn new(self_chain: String, accept_proposal_from_gov: Members) -> (r: Self)
        requires
            accept_proposal_from_gov.well_formed(),
        ensures
            r.members_state.self_chain == self_chain,
            r.members_state.member_names() == seq![self_chain],
            r.members_state.item_state.is_finalized(),
            r.proposal_state.base_map() == Map::<Seq<char>, ProposalRecord>::empty(),
            r.proposal_state.initiated_map() == Map::<Seq<char>, StateChange<ProposalRecord>>::empty(),
            r.proposal_state.proposed_map() == Map::<Seq<char>, StateChange<ProposalRecord>>::empty(),
            r.finalized_proposals@ == Map::<Seq<char>, FinalizedProposal>::empty(),
            r.votes@ == Map::<Seq<char>, GovernanceVote>::empty(),
            r.vote_results@ == Map::<Seq<char>, Vec<VoteResult>>::empty(),
            r.gov_vote_queries@ == Map::<Seq<char>, Vec<GovQueryResult>>::empty(),
            r.pending_replies@ == Map::<u64, QueryTarget>::empty(),
            r.pending_queries@ == Map::<u64, QueryTarget>::empty(),
            r.allow_joining_gov == accept_proposal_from_gov,
            r.well_formed(),
    {
        InterchainGov {
            members_state: MembersSyncState::new(self_chain),
            proposal_state: MapStateSyncController::new(),
            finalized_proposals: StringHashMap::new(),
            votes: StringHashMap::new(),
            vote_results: StringHashMap::new(),
            gov_vote_queries: StringHashMap::new(),
            pending_replies: HashMapWithView::new(),
            pending_queries: HashMapWithView::new(),
            allow_joining_gov: accept_proposal_from_gov,
        }
    }

    /// Only accept join invitations for groups with these members.
    pub fn set_accept_gov_invite(&mut self, members: Members) -> (r: Result<
        (),
        InterchainGovError,
    >)
        requires
            old(self).well_formed(),
        ensures
            r is Ok <==> members.well_formed(),
            r is Ok ==> final(self).allow_joining_gov == members && final(self).well_formed(),
            r is Err ==> *final(self) == *old(self),
            final(self).members_state == old(self).members_state,
            final(self).proposal_state == old(self).proposal_state,
            final(self).finalized_proposals@ == old(self).finalized_proposals@,
            final(self).votes@ == old(self).votes@,
            final(self).vote_results@ == old(self).vote_results@,
            final(self).gov_vote_queries@ == old(self).gov_vote_queries@,
            final(self).pending_replies@ == old(self).pending_replies@,
            final(self).pending_queries@ == old(self).pending_queries@,
    {
        if let Some(member) = members.find_duplicate() {
            return Err(InterchainGovError::MemberAlreadyExists { member });
        }
        self.allow_joining_gov = members;
        Ok(())
    }

    /// Overwrite the member set directly, for testing.
    pub fn test_add_members(&mut self, members: Members) -> (r: Result<(), InterchainGovError>)
        requires
            old(self).well_formed(),
        ensures
            r is Ok <==> members.well_formed(),
            r is Ok ==> final(self).members_state.members == members && final(self).well_formed(),
            r is Err ==> *final(self) == *old(self),
            final(self).members_state.self_chain == old(self).members_state.self_chain,
            final(self).members_state.item_state == old(self).members_state.item_state,
            final(self).members_state.acks() == old(self).members_state.acks(),
            final(self).proposal_state == old(self).proposal_state,
            Self::same_vote_state(*old(self), *final(self)),
    {
        if let Some(member) = members.find_duplicate() {
            return Err(InterchainGovError::MemberAlreadyExists { member });
        }
        self.members_state.save_members(members);
        Ok(())
    }

    /// Create a proposal and announce it to the group.
    ///
    /// The identifier is the deterministic content hash of the message.
    /// When this node is the only member, the proposal commits at once as
    /// finalized with this node's `Yes` vote, and a member-set proposal
    /// additionally starts the member synchronization, inviting the new
    /// members; no acknowledgment round is needed. Otherwise the proposal
    /// is recorded as `Initiated` and announced to every other member,
    /// whose acknowledgments are awaited.
    pub fn propose(&mut self, proposal: ProposalMsg, proposer: String) -> (r: Result<
        (String, Vec<IbcAction>),
        InterchainGovError,
    >)
        requires
            old(self).well_formed(),
        ensures
            final(self).well_formed(),
            ({
                let gid = proposal_id_of(proposal.title@, proposal.description@);
                let ext = remove_name(
                    old(self).members_state.member_names(),
                    old(self).self_chain_name(),
                );
                &&& (r matches Ok((id, _)) ==> id@ == gid)
                &&& (!old(self).members_state.item_state.is_finalized() ==> r == Err::<
                    (String, Vec<IbcAction>),
                    InterchainGovError,
                >(InterchainGovError::SyncState(SyncStateError::DataNotFinalized)) && *final(self)
                    == *old(self))
                &&& (old(self).members_state.item_state.is_finalized() && old(self).known_proposal(gid) ==> (r matches Err(e) && e matches
                    InterchainGovError::ProposalAlreadyExists(p) && p@ == gid) && *final(self)
                    == *old(self))
                &&& (r is Ok <==> old(self).members_state.item_state.is_finalized() && !old(self).known_proposal(gid) && (proposal.action.update_members() is Some
                    ==> proposal.action.update_members().unwrap().well_formed()))
                &&& (r is Ok && ext.len() == 0 ==> {
                    &&& final(self).proposal_state.base_map().contains_key(gid)
                    &&& final(self).proposal_state.base_map() == old(self).proposal_state.base_map().insert(gid, final(self).proposal_state.base_map()[gid])
                    &&& final(self).proposal_state.base_map()[gid].vote == Vote::Yes
                    &&& final(self).proposal_state.base_map()[gid].proposal.title
                        == proposal.title
                    &&& final(self).proposal_state.base_map()[gid].proposal.description
                        == proposal.description
                    &&& final(self).proposal_state.base_map()[gid].proposal.action.eqv(
                        proposal.action,
                    )
                    &&& final(self).proposal_state.base_map()[gid].proposal.expiration
                        == proposal.expiration
                    &&& final(self).proposal_state.base_map()[gid].proposal.min_voting_period
                        == proposal.min_voting_period
                    &&& final(self).proposal_state.base_map()[gid].proposal.proposer == proposer
                    &&& final(self).proposal_state.base_map()[gid].proposal.proposer_chain
                        == old(self).members_state.self_chain
                    &&& final(self).proposal_state.base_map()[gid].proposal.threshold == (
                    Threshold::AbsolutePercentage { percent: 100u64 })
                    &&& !final(self).proposal_state.has_overlay(gid)
                    &&& final(self).proposal_state.initiated_map() == old(self).proposal_state.initiated_map().remove(gid)
                    &&& final(self).proposal_state.proposed_map() == old(self).proposal_state.proposed_map().remove(gid)
                })
                &&& (r is Ok && ext.len() == 0 && proposal.action is Signal ==> (
                r matches Ok((_, actions)) && actions@.len() == 0) && final(self).members_state
                    == old(self).members_state)
                &&& (r is Ok && ext.len() == 0 && proposal.action.update_members() is Some ==> (
                final(self).members_state.item_state.initiated matches Some(
                    StateChange::Proposal(m),
                ) && m.names() == proposal.action.update_members().unwrap().names()))
                &&& (r is Ok && ext.len() == 0 && proposal.action.update_members() is Some ==> ({
                    let invited = remove_name(
                        proposal.action.update_members().unwrap().names(),
                        old(self).self_chain_name(),
                    );
                    &&& final(self).members_state.acks() == remove_name(
                        old(self).members_state.member_names(),
                        old(self).self_chain_name(),
                    )
                    &&& final(self).members_state.members == old(self).members_state.members
                    &&& final(self).members_state.self_chain == old(self).members_state.self_chain
                    &&& (r matches Ok((_, actions)) && actions@.len() == invited.len() && (forall|
                        i: int,
                    |
                        0 <= i < invited.len() ==> (#[trigger] actions@[i]).host == invited[i] && (
                        actions@[i].msg matches InterchainGovIbcMsg::JoinGov { members: m }
                            && m.names() == proposal.action.update_members().unwrap().names()) && (
                        actions@[i].callback matches InterchainGovIbcCallbackMsg::JoinGov {
                            proposed_to,
                        } && proposed_to == actions@[i].host)))
                }))
                &&& (r is Ok && ext.len() > 0 ==> {
                    &&& final(self).proposal_state.initiated_map().contains_key(gid)
                    &&& final(self).proposal_state.initiated_map() == old(self).proposal_state.initiated_map().insert(gid, final(self).proposal_state.initiated_map()[gid])
                    &&& final(self).proposal_state.initiated_map()[gid] matches
                        StateChange::Proposal(rec) && rec.vote == Vote::Yes
                        && rec.proposal.title == proposal.title && rec.proposal.description
                        == proposal.description && rec.proposal.proposer == proposer
                        && rec.proposal.expiration == proposal.expiration
                        && rec.proposal.min_voting_period == proposal.min_voting_period
                        && rec.proposal.proposer_chain == old(self).members_state.self_chain
                        && rec.proposal.threshold == (Threshold::AbsolutePercentage {
                            percent: 100u64,
                        }) && rec.proposal.action.eqv(proposal.action)
                    &&& final(self).proposal_state.base_map() == old(self).proposal_state.base_map()
                    &&& final(self).proposal_state.proposed_map() == old(self).proposal_state.proposed_map()
                    &&& final(self).members_state == old(self).members_state
                    &&& final(self).proposal_state.acks_of(gid) == ext
                    &&& r matches Ok((_, actions)) && actions@.len() == ext.len() && (forall|
                        i: int,
                    |
                        0 <= i < ext.len() ==> {
                            &&& (#[trigger] actions@[i]).host == ext[i]
                            &&& actions@[i].msg matches InterchainGovIbcMsg::ProposeProposal {
                                prop_hash,
                                chain,
                                prop,
                            } && prop_hash@ == gid && chain == ext[i] && prop.eqv(
                                final(self).proposal_state.initiated_map()[gid]->Proposal_0.proposal,
                            )
                            &&& actions@[i].callback matches
                                InterchainGovIbcCallbackMsg::ProposeProposal {
                                prop_hash,
                                proposed_to,
                            } && prop_hash@ == gid && proposed_to == ext[i]
                        })
                })
            }),
            Self::same_vote_state(*old(self), *final(self)),
    {
        let prop_id = proposal.hash();

        if let Err(_) = self.members_state.assert_finalized() {
            return Err(InterchainGovError::SyncState(SyncStateError::DataNotFinalized));
        }

        let known = self.proposal_state.has(prop_id.as_str())
            || self.proposal_state.data_state(prop_id.as_str()).is_some();
        if known {
            return Err(InterchainGovError::ProposalAlreadyExists(prop_id));
        }

        let self_chain = self.members_state.self_chain.clone();
        let prop = Proposal::new(proposal, proposer, self_chain);

        if let ProposalAction::UpdateMembers { members } = &prop.action {
            if let Some(member) = members.find_duplicate() {
                return Err(InterchainGovError::MemberAlreadyExists { member });
            }
        }

        let ext = self.members_state.external_members();
        if ext.members.len() == 0 {
            let action_members: Option<Members> = match &prop.action {
                ProposalAction::UpdateMembers { members } => Some(members.clone()),
                ProposalAction::Signal => None,
            };
            let record = ProposalRecord { proposal: prop, vote: Vote::Yes };
            let finalize_res = self.proposal_state.finalize_kv_state(
                prop_id.clone(),
                Some(record),
            );
            proof {
                assert(finalize_res is Ok);
            }
            match action_members {
                None => Ok((prop_id, Vec::new())),
                Some(members) => {
                    let invited = self.join_gov_actions(members);
                    Ok((prop_id, invited))
                },
            }
        } else {
            let prop_for_msgs = prop.clone();
            let record = ProposalRecord { proposal: prop, vote: Vote::Yes };
            let ack_names = clone_names(&ext.members);
            let init_res = self.proposal_state.initiate_kv_state(
                prop_id.clone(),
                record,
                ack_names,
            );
            proof {
                assert(init_res is Ok);
            }

            let mut actions: Vec<IbcAction> = Vec::new();
            let mut i: usize = 0;
            let ghost gid = prop_id@;
            let ghost ext_names = ext.members@;
            while i < ext.members.len()
                invariant
                    0 <= i <= ext.members.len(),
                    ext.members@ == ext_names,
                    prop_id@ == gid,
                    actions@.len() == i,
                    forall|j: int|
                        0 <= j < i ==> {
                            &&& (#[trigger] actions@[j]).host == ext_names[j]
                            &&& actions@[j].msg matches InterchainGovIbcMsg::ProposeProposal {
                                prop_hash,
                                chain,
                                prop,
                            } && prop_hash@ == gid && chain == ext_names[j] && prop.eqv(
                                prop_for_msgs,
                            )
                            &&& actions@[j].callback matches
                                InterchainGovIbcCallbackMsg::ProposeProposal {
                                prop_hash,
                                proposed_to,
                            } && prop_hash@ == gid && proposed_to == ext_names[j]
                        },
                decreases ext.members.len() - i,
            {
                let host = ext.members[i].clone();
                let action = IbcAction {
                    host: host.clone(),
                    msg: InterchainGovIbcMsg::ProposeProposal {
                        prop_hash: prop_id.clone(),
                        prop: prop_for_msgs.clone(),
                        chain: host.clone(),
                    },
                    callback: InterchainGovIbcCallbackMsg::ProposeProposal {
                        prop_hash: prop_id.clone(),
                        proposed_to: host,
                    },
                };
                actions.push(action);
                i = i + 1;
            }
            Ok((prop_id, actions))
        }
    }

    /// Broadcast the finalization of a proposal this node originated.
    ///
    /// Requires the local copy to be `Proposed` — every peer has
    /// acknowledged the announcement — with no acknowledgment outstanding.
    /// Registers a fresh acknowledgment round over the other members and
    /// builds one finalize message per member; each recipient commits its
    /// pending copy on receipt, and this node commits its own when the
    /// last acknowledgment arrives.
    pub fn finalize(&mut self, prop_id: String) -> (r: Result<Vec<IbcAction>, InterchainGovError>)
        requires
            old(self).well_formed(),
        ensures
            final(self).well_formed(),
            !old(self).members_state.item_state.is_finalized() ==> r == Err::<
                Vec<IbcAction>,
                InterchainGovError,
            >(InterchainGovError::SyncState(SyncStateError::DataNotFinalized)) && *final(self)
                == *old(self),
            old(self).members_state.item_state.is_finalized() && !old(self).proposal_state.proposed_map().contains_key(prop_id@) ==> (r matches Err(e)
                && e matches InterchainGovError::InvalidProposalState { prop_id: p, .. } && p@
                == prop_id@) && *final(self) == *old(self),
            old(self).members_state.item_state.is_finalized() && old(self).proposal_state.proposed_map().contains_key(prop_id@) && old(self).proposal_state.acks_of(prop_id@).len() > 0 ==> (r matches Err(e)
                && e matches InterchainGovError::OutstandingAcks(p) && p@ == prop_id@) && *final(self) == *old(self),
            r is Ok <==> old(self).members_state.item_state.is_finalized() && old(self).proposal_state.proposed_map().contains_key(prop_id@) && old(self).proposal_state.acks_of(prop_id@).len() == 0,
            r matches Ok(actions) ==> ({
                let ext = remove_name(
                    old(self).members_state.member_names(),
                    old(self).self_chain_name(),
                );
                &&& final(self).proposal_state.acks_of(prop_id@) == ext
                &&& final(self).proposal_state.acks_map() == old(self).proposal_state.acks_map().insert(prop_id@, final(self).proposal_state.acks_map()[prop_id@])
                &&& final(self).proposal_state.base_map() == old(self).proposal_state.base_map()
                &&& final(self).proposal_state.initiated_map() == old(self).proposal_state.initiated_map()
                &&& final(self).proposal_state.proposed_map() == old(self).proposal_state.proposed_map()
                &&& actions@.len() == ext.len()
                &&& forall|i: int|
                    0 <= i < ext.len() ==> {
                        &&& (#[trigger] actions@[i]).host == ext[i]
                        &&& (actions@[i].msg matches InterchainGovIbcMsg::FinalizeProposal {
                            prop_hash,
                        } && prop_hash@ == prop_id@)
                        &&& (actions@[i].callback matches
                            InterchainGovIbcCallbackMsg::FinalizeProposal {
                            prop_hash,
                            proposed_to,
                        } && prop_hash@ == prop_id@ && proposed_to == ext[i])
                    }
            }),
            final(self).members_state == old(self).members_state,
            Self::same_vote_state(*old(self), *final(self)),
    {
        if let Err(_) = self.members_state.assert_finalized() {
            return Err(InterchainGovError::SyncState(SyncStateError::DataNotFinalized));
        }
        if let Err(_) = self.proposal_state.assert_proposed(prop_id.as_str()) {
            return Err(
                InterchainGovError::InvalidProposalState {
                    prop_id,
                    expected_state: Some(crate::data_state::DataState::Proposed),
                },
            );
        }
        if self.proposal_state.has_outstanding_acks(prop_id.as_str()) {
            return Err(InterchainGovError::OutstandingAcks(prop_id));
        }
        let ext = self.members_state.external_members();
        self.proposal_state.set_outstanding_finalization_acks(
            prop_id.clone(),
            clone_names(&ext.members),
        );
        let ghost ext_names = ext.members@;
        let mut actions: Vec<IbcAction> = Vec::new();
        let mut i: usize = 0;
        while i < ext.members.len()
            invariant
                0 <= i <= ext.members.len(),
                ext.members@ == ext_names,
                actions@.len() == i,
                forall|j: int|
                    0 <= j < i ==> {
                        &&& (#[trigger] actions@[j]).host == ext_names[j]
                        &&& (actions@[j].msg matches InterchainGovIbcMsg::FinalizeProposal {
                            prop_hash,
                        } && prop_hash@ == prop_id@)
                        &&& (actions@[j].callback matches
                            InterchainGovIbcCallbackMsg::FinalizeProposal {
                            prop_hash,
                            proposed_to,
                        } && prop_hash@ == prop_id@ && proposed_to == ext_names[j])
                    },
            decreases ext.members.len() - i,
        {
            let host = ext.members[i].clone();
            actions.push(
                IbcAction {
                    host: host.clone(),
                    msg: InterchainGovIbcMsg::FinalizeProposal { prop_hash: prop_id.clone() },
                    callback: InterchainGovIbcCallbackMsg::FinalizeProposal {
                        prop_hash: prop_id.clone(),
                        proposed_to: host,
                    },
                },
            );
            i = i + 1;
        }
        Ok(actions)
    }

    /// Start the member synchronization for a new member set and build
    /// the invitations to its members, excluding this node.
    fn join_gov_actions(&mut self, members: Members) -> (actions: Vec<IbcAction>)
        requires
            old(self).well_formed(),
            members.well_formed(),
            old(self).members_state.item_state.is_finalized(),
        ensures
            final(self).well_formed(),
            final(self).members_state.item_state.initiated matches Some(
                StateChange::Proposal(m),
            ) && m.names() == members.names(),
            final(self).members_state.acks() == remove_name(
                old(self).members_state.member_names(),
                old(self).self_chain_name(),
            ),
            final(self).members_state.members == old(self).members_state.members,
            final(self).members_state.self_chain == old(self).members_state.self_chain,
            final(self).proposal_state == old(self).proposal_state,
            Self::same_vote_state(*old(self), *final(self)),
            forall|j: int|
                0 <= j < actions@.len() ==> ((#[trigger] actions@[j]).msg matches
                InterchainGovIbcMsg::JoinGov { members: m } && m.names() == members.names()),
            forall|j: int|
                0 <= j < actions@.len() ==> ((#[trigger] actions@[j]).callback matches
                InterchainGovIbcCallbackMsg::JoinGov { proposed_to } && proposed_to
                    == actions@[j].host),
            actions@.len() == remove_name(members.names(), old(self).self_chain_name()).len(),
            forall|j: int|
                0 <= j < actions@.len() ==> (#[trigger] actions@[j]).host == remove_name(
                    members.names(),
                    old(self).self_chain_name(),
                )[j],
    {
        let full = members.clone();
        match self.members_state.initiate_members(members) {
            Ok(()) => {},
            Err(_) => {
                proof {
                    assert(false);
                }
            },
        }
        let mut recipients = clone_names(&full.members);
        let _ = crate::names::remove_first_name(&mut recipients, &self.members_state.self_chain);
        let ghost rec_names = recipients@;
        let mut actions: Vec<IbcAction> = Vec::new();
        let mut i: usize = 0;
        while i < recipients.len()
            invariant
                0 <= i <= recipients.len(),
                recipients@ == rec_names,
                actions@.len() == i,
                forall|j: int|
                    0 <= j < i ==> ((#[trigger] actions@[j]).msg matches
                    InterchainGovIbcMsg::JoinGov { members: m } && m.names() == full.names()),
                forall|j: int|
                    0 <= j < i ==> ((#[trigger] actions@[j]).callback matches
                    InterchainGovIbcCallbackMsg::JoinGov { proposed_to } && proposed_to
                        == actions@[j].host),
                forall|j: int| 0 <= j < i ==> (#[trigger] actions@[j]).host == rec_names[j],
            decreases recipients.len() - i,
        {
            let host = recipients[i].clone();
            let all = full.clone();
            let action = IbcAction {
                host: host.clone(),
                msg: InterchainGovIbcMsg::JoinGov { members: all },
                callback: InterchainGovIbcCallbackMsg::JoinGov { proposed_to: host },
            };
            actions.push(action);
            i = i + 1;
        }
        actions
    }
}

} // verus!
