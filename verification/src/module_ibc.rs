//! Handling of messages received from peers.
//!
//! A message is accepted only from this module's own identity on the
//! sending chain; each function here is one atomic transition for one
//! received message.

use vstd::prelude::*;

use crate::error::InterchainGovError;
use crate::gov::InterchainGov;
use crate::state::{
    FinalizedProposal, Members, Proposal, ProposalAction, ProposalOutcome, ProposalRecord, Vote,
};
use crate::sync_state::{StateChange, SyncStateError};

verus! {

/// The module identity under which peers of this group send their
/// messages: its namespace and name, joined by a colon.
pub const ADAPTER_ID: &'static str = "yournamespace:interchain-gov";

/// Accept a peer message only from this very module on the sending
/// chain: a message from any other module is rejected before it is
/// dispatched, and no state is touched.
pub fn authorize_module(source_module_id: &String) -> (r: Result<(), InterchainGovError>)
    ensures
        r is Ok <==> source_module_id@ == ADAPTER_ID@,
        r matches Err(e) ==> (e matches InterchainGovError::UnauthorizedIbcModule(m) && m@
            == source_module_id@),
{
    let expected: String = ADAPTER_ID.to_owned();
    if *source_module_id == expected {
        Ok(())
    } else {
        Err(InterchainGovError::UnauthorizedIbcModule(source_module_id.clone()))
    }
}

impl InterchainGov {
    /// A peer asks this node to join a group. The invitation is accepted
    /// only while the member set is finalized, only when every listed
    /// member belongs to the whitelisted group, and the new set is
    /// committed directly: no local proposal round is run.
    pub fn receive_join_gov(&mut self, members: Members) -> (r: Result<(), InterchainGovError>)
        requires
            old(self).well_formed(),
        ensures
            final(self).well_formed(),
            !old(self).members_state.item_state.is_finalized() ==> r == Err::<
                (),
                InterchainGovError,
            >(InterchainGovError::SyncState(SyncStateError::DataNotFinalized)) && *final(self)
                == *old(self),
            old(self).members_state.item_state.is_finalized() && !(forall|i: int|
                0 <= i < members.names().len() ==> crate::names::contains_name(
                    old(self).allow_joining_gov.names(),
                    members.names()[i]@,
                )) ==> r == Err::<(), InterchainGovError>(
                InterchainGovError::UnauthorizedIbcMessage,
            ) && *final(self) == *old(self),
            r is Ok <==> old(self).members_state.item_state.is_finalized() && (forall|i: int|
                0 <= i < members.names().len() ==> crate::names::contains_name(
                    old(self).allow_joining_gov.names(),
                    members.names()[i]@,
                )) && members.well_formed(),
            r is Ok ==> final(self).members_state.members == members && final(self).members_state.item_state.is_finalized(),
            r is Err ==> *final(self) == *old(self),
            final(self).proposal_state == old(self).proposal_state,
            final(self).members_state.self_chain == old(self).members_state.self_chain,
            final(self).members_state.acks() == old(self).members_state.acks(),
            Self::same_vote_state(*old(self), *final(self)),
    {
        if let Err(_) = self.members_state.assert_finalized() {
            return Err(InterchainGovError::SyncState(SyncStateError::DataNotFinalized));
        }
        if !self.allow_joining_gov.contains_all(&members) {
            return Err(InterchainGovError::UnauthorizedIbcMessage);
        }
        if let Some(member) = members.find_duplicate() {
            return Err(InterchainGovError::MemberAlreadyExists { member });
        }
        match self.members_state.finalize_members(Some(members)) {
            Ok(()) => Ok(()),
            Err(e) => Err(InterchainGovError::SyncState(e)),
        }
    }

    /// A peer announces a proposal. The announcement must be addressed to
    /// this node, the member set must be finalized, and the proposal must
    /// be new; it is then held as `Proposed` with a default `NoVote`
    /// until the finalize message arrives.
    pub fn receive_propose_proposal(
        &mut self,
        prop_hash: String,
        prop: Proposal,
        chain: String,
    ) -> (r: Result<(), InterchainGovError>)
        requires
            old(self).well_formed(),
        ensures
            final(self).well_formed(),
            chain@ != old(self).self_chain_name() ==> (r matches Err(e) && e matches
                InterchainGovError::WrongChain { expected, actual } && expected@ == old(self).self_chain_name() && actual@ == chain@) && *final(self) == *old(self),
            chain@ == old(self).self_chain_name() && !old(self).members_state.item_state.is_finalized() ==> r == Err::<(), InterchainGovError>(
                InterchainGovError::SyncState(SyncStateError::DataNotFinalized),
            ) && *final(self) == *old(self),
            chain@ == old(self).self_chain_name() && old(self).members_state.item_state.is_finalized() && old(self).known_proposal(prop_hash@)
                ==> (r matches Err(e) && e matches InterchainGovError::ProposalAlreadyExists(p)
                && p@ == prop_hash@) && *final(self) == *old(self),
            r is Ok <==> chain@ == old(self).self_chain_name() && old(self).members_state.item_state.is_finalized() && !old(self).known_proposal(prop_hash@) && (
            prop.action.update_members() is Some
                ==> prop.action.update_members().unwrap().well_formed()),
            r is Ok ==> final(self).proposal_state.proposed_map() == old(self).proposal_state.proposed_map().insert(
                prop_hash@,
                StateChange::Proposal(ProposalRecord { proposal: prop, vote: Vote::NoVote }),
            ) && final(self).proposal_state.initiated_map() == old(self).proposal_state.initiated_map() && final(self).proposal_state.base_map() == old(self).proposal_state.base_map(),
            final(self).proposal_state.acks_map() == old(self).proposal_state.acks_map(),
            r is Err ==> *final(self) == *old(self),
            final(self).members_state == old(self).members_state,
            Self::same_vote_state(*old(self), *final(self)),
    {
        if self.members_state.self_chain != chain {
            let expected = self.members_state.self_chain.clone();
            return Err(InterchainGovError::WrongChain { expected, actual: chain });
        }
        if let Err(_) = self.members_state.assert_finalized() {
            return Err(InterchainGovError::SyncState(SyncStateError::DataNotFinalized));
        }
        if self.proposal_state.has(prop_hash.as_str()) || self.proposal_state.data_state(
            prop_hash.as_str(),
        ).is_some() {
            return Err(InterchainGovError::ProposalAlreadyExists(prop_hash));
        }
        if let ProposalAction::UpdateMembers { members } = &prop.action {
            if let Some(member) = members.find_duplicate() {
                return Err(InterchainGovError::MemberAlreadyExists { member });
            }
        }
        let record = ProposalRecord { proposal: prop, vote: Vote::NoVote };
        match self.proposal_state.propose_kv_state(prop_hash, record) {
            Ok(()) => Ok(()),
            Err(e) => Err(InterchainGovError::SyncState(e)),
        }
    }

    /// A peer tells this node to commit its pending copy of a proposal:
    /// the value is read back out of the overlay and committed.
    pub fn receive_finalize_proposal(&mut self, prop_hash: String) -> (r: Result<
        (),
        InterchainGovError,
    >)
        requires
            old(self).well_formed(),
        ensures
            final(self).well_formed(),
            !old(self).proposal_state.has_overlay(prop_hash@) ==> r == Err::<
                (),
                InterchainGovError,
            >(InterchainGovError::SyncState(SyncStateError::NoProposedState)) && *final(self)
                == *old(self),
            old(self).proposal_state.overlay_proposal_at(prop_hash@) is Some ==> r is Ok && final(self).proposal_state.base_map().contains_key(prop_hash@) && final(self).proposal_state.base_map()[prop_hash@].eqv(
                old(self).proposal_state.overlay_proposal_at(prop_hash@).unwrap(),
            ) && !final(self).proposal_state.has_overlay(prop_hash@)
                && final(self).proposal_state.base_map() == old(self).proposal_state.base_map().insert(prop_hash@, final(self).proposal_state.base_map()[prop_hash@])
                && final(self).proposal_state.initiated_map() == old(self).proposal_state.initiated_map().remove(prop_hash@)
                && final(self).proposal_state.proposed_map() == old(self).proposal_state.proposed_map().remove(prop_hash@),
            final(self).proposal_state.acks_map() == old(self).proposal_state.acks_map(),
            r is Err ==> *final(self) == *old(self),
            final(self).members_state == old(self).members_state,
            Self::same_vote_state(*old(self), *final(self)),
    {
        let ghost gkey = prop_hash@;
        match self.proposal_state.finalize_kv_state(prop_hash, None) {
            Ok(()) => {
                proof {
                    if old(self).proposal_state.overlay_proposal_at(gkey) is Some {
                        let p = old(self).proposal_state.overlay_proposal_at(gkey).unwrap();
                        let v = self.proposal_state.base_map()[gkey];
                        assert(cloned::<ProposalRecord>(p, v));
                        assert(v.eqv(p));
                    }
                }
                Ok(())
            },
            Err(e) => Err(InterchainGovError::SyncState(e)),
        }
    }

    /// A peer reports the tallied outcome of an executed proposal: record
    /// it and apply its action. When a passed member-set change excludes
    /// this node, the node leaves the group and keeps itself as the only
    /// member; this is a deliberate choice.
    pub fn receive_proposal_result(&mut self, prop_hash: String, outcome: ProposalOutcome) -> (r:
        Result<(), InterchainGovError>)
        requires
            old(self).well_formed(),
        ensures
            final(self).well_formed(),
            !old(self).proposal_state.base_map().contains_key(prop_hash@) ==> (r matches Err(e)
                && e matches InterchainGovError::ProposalNotFound(p) && p@ == prop_hash@)
                && *final(self) == *old(self),
            r is Ok <==> old(self).proposal_state.base_map().contains_key(prop_hash@),
            r is Ok ==> final(self).finalized_proposals@.contains_key(prop_hash@) && final(self).finalized_proposals@[prop_hash@].outcome == outcome && final(self).finalized_proposals@[prop_hash@].proposal.eqv(
                old(self).proposal_state.base_map()[prop_hash@].proposal,
            ),
            r is Ok ==> ({
                let act = old(self).proposal_state.base_map()[prop_hash@].proposal.action;
                &&& (act.update_members() is Some && act.update_members().unwrap().well_formed()
                    && crate::names::contains_name(
                    act.update_members().unwrap().names(),
                    old(self).self_chain_name(),
                ) ==> final(self).members_state.member_names()
                    == act.update_members().unwrap().names())
                &&& (act.update_members() is Some && act.update_members().unwrap().well_formed()
                    && !crate::names::contains_name(
                    act.update_members().unwrap().names(),
                    old(self).self_chain_name(),
                ) ==> final(self).members_state.member_names() == seq![
                    old(self).members_state.self_chain,
                ])
                &&& (act is Signal ==> final(self).members_state.members == old(self).members_state.members)
            }),
            r is Ok ==> final(self).finalized_proposals@ == old(self).finalized_proposals@.insert(prop_hash@, final(self).finalized_proposals@[prop_hash@]),
            r is Err ==> *final(self) == *old(self),
            final(self).proposal_state == old(self).proposal_state,
            final(self).members_state.self_chain == old(self).members_state.self_chain,
            final(self).members_state.item_state == old(self).members_state.item_state,
            final(self).members_state.acks() == old(self).members_state.acks(),
            final(self).votes@ == old(self).votes@,
            final(self).vote_results@ == old(self).vote_results@,
            final(self).gov_vote_queries@ == old(self).gov_vote_queries@,
            final(self).pending_replies@ == old(self).pending_replies@,
            final(self).pending_queries@ == old(self).pending_queries@,
            final(self).allow_joining_gov == old(self).allow_joining_gov,
    {
        let record = match self.proposal_state.load(prop_hash.as_str()) {
            Ok(rec) => rec,
            Err(_) => {
                return Err(InterchainGovError::ProposalNotFound(prop_hash));
            },
        };
        let prop = record.proposal.clone();
        let action_members: Option<Members> = match &prop.action {
            ProposalAction::UpdateMembers { members } => Some(members.clone()),
            ProposalAction::Signal => None,
        };
        self.finalized_proposals.insert(
            prop_hash,
            FinalizedProposal { proposal: prop, outcome },
        );
        if let Some(members) = action_members {
            self.apply_member_update(members);
        }
        Ok(())
    }

    /// Apply a member-set change decided by the group. When the new set
    /// excludes this node, the node leaves the group and keeps itself as
    /// the only member. A set that names a peer twice is refused and the
    /// member set is left unchanged.
    pub fn apply_member_update(&mut self, members: Members)
        requires
            old(self).well_formed(),
        ensures
            final(self).well_formed(),
            members.well_formed() && crate::names::contains_name(
                members.names(),
                old(self).self_chain_name(),
            ) ==> final(self).members_state.members == members,
            members.well_formed() && !crate::names::contains_name(
                members.names(),
                old(self).self_chain_name(),
            ) ==> final(self).members_state.member_names() == seq![
                old(self).members_state.self_chain,
            ],
            !members.well_formed() ==> *final(self) == *old(self),
            final(self).members_state.self_chain == old(self).members_state.self_chain,
            final(self).members_state.item_state == old(self).members_state.item_state,
            final(self).members_state.acks() == old(self).members_state.acks(),
            final(self).proposal_state == old(self).proposal_state,
            Self::same_vote_state(*old(self), *final(self)),
    {
        if !members.check_unique() {
            return ;
        }
        if !members.contains(&self.members_state.self_chain) {
            let only_self = Members::new(self.members_state.self_chain.clone());
            self.members_state.save_members(only_self);
        } else {
            self.members_state.save_members(members);
        }
    }
}

} // verus!
