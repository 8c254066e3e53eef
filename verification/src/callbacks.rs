//! Handling of acknowledgment callbacks.
//!
//! Every outbound peer message carries a correlation payload; when the
//! peer confirms processing, the matching callback runs here and advances
//! the state machine. Acknowledgment application is idempotent: a
//! duplicate delivery removes nothing further.

use vstd::prelude::*;

use crate::error::InterchainGovError;
use crate::gov::InterchainGov;
use crate::names::remove_name;
use crate::state::ProposalRecord;
use crate::sync_state::SyncStateError;

verus! {

impl InterchainGov {
    /// A peer acknowledged a join invitation. When the last awaited peer
    /// acknowledges, the pending member set is committed.
    pub fn join_gov_callback(&mut self, proposed_to: &String) -> (r: Result<
        (),
        InterchainGovError,
    >)
        requires
            old(self).well_formed(),
        ensures
            final(self).well_formed(),
            final(self).members_state.acks() == remove_name(
                old(self).members_state.acks(),
                proposed_to@,
            ),
            remove_name(old(self).members_state.acks(), proposed_to@).len() > 0 ==> r is Ok
                && final(self).members_state.members == old(self).members_state.members && final(self).members_state.item_state == old(self).members_state.item_state,
            remove_name(old(self).members_state.acks(), proposed_to@).len() == 0 && old(self).members_state.pending_members() is Some ==> r is Ok
                && final(self).members_state.members.names() == old(self).members_state.pending_members().unwrap().names() && final(self).members_state.item_state.is_finalized(),
            remove_name(old(self).members_state.acks(), proposed_to@).len() == 0 && old(self).members_state.item_state.is_finalized() ==> r == Err::<(), InterchainGovError>(
                InterchainGovError::SyncState(SyncStateError::NoProposedState),
            ),
            remove_name(old(self).members_state.acks(), proposed_to@).len() == 0 && !old(self).members_state.item_state.is_finalized() && old(self).members_state.pending_members() is None ==> r == Err::<(), InterchainGovError>(
                InterchainGovError::SyncState(SyncStateError::DataNotFinalized),
            ),
            final(self).members_state.self_chain == old(self).members_state.self_chain,
            Self::same_vote_state(*old(self), *final(self)),
            final(self).proposal_state == old(self).proposal_state,
    {
        let _ = self.members_state.apply_ack(proposed_to);
        if !self.members_state.has_outstanding_acks() {
            match self.members_state.finalize_members(None) {
                Ok(()) => Ok(()),
                Err(e) => Err(InterchainGovError::SyncState(e)),
            }
        } else {
            Ok(())
        }
    }

    /// A peer acknowledged a proposal announcement. When the last awaited
    /// peer acknowledges, the proposal this node originated moves from
    /// `Initiated` to `Proposed`: it is now ready to finalize.
    pub fn proposal_callback(&mut self, prop_hash: &String, proposed_to: &String) -> (r: Result<
        (),
        InterchainGovError,
    >)
        requires
            old(self).well_formed(),
        ensures
            final(self).well_formed(),
            final(self).proposal_state.acks_of(prop_hash@) == remove_name(
                old(self).proposal_state.acks_of(prop_hash@),
                proposed_to@,
            ),
            remove_name(old(self).proposal_state.acks_of(prop_hash@), proposed_to@).len() > 0
                ==> r is Ok && final(self).proposal_state.initiated_map() == old(self).proposal_state.initiated_map() && final(self).proposal_state.proposed_map() == old(self).proposal_state.proposed_map() && final(self).proposal_state.base_map() == old(self).proposal_state.base_map(),
            remove_name(old(self).proposal_state.acks_of(prop_hash@), proposed_to@).len() == 0
                && old(self).proposal_state.initiated_map().contains_key(prop_hash@) ==> r is Ok
                && final(self).proposal_state.initiated_map() == old(self).proposal_state.initiated_map().remove(prop_hash@) && final(self).proposal_state.proposed_map().contains_key(prop_hash@)
                && crate::map_sync::state_change_cloned(
                old(self).proposal_state.initiated_map()[prop_hash@],
                final(self).proposal_state.proposed_map()[prop_hash@],
            ),
            remove_name(old(self).proposal_state.acks_of(prop_hash@), proposed_to@).len() == 0
                && !old(self).proposal_state.initiated_map().contains_key(prop_hash@) ==> (
            r matches Err(e) && e matches InterchainGovError::InvalidProposalState { prop_id, .. }
                && prop_id@ == prop_hash@) && final(self).proposal_state.initiated_map() == old(self).proposal_state.initiated_map() && final(self).proposal_state.proposed_map() == old(self).proposal_state.proposed_map(),
            final(self).proposal_state.base_map() == old(self).proposal_state.base_map(),
            final(self).proposal_state.acks_map().remove(prop_hash@) =~= old(self).proposal_state.acks_map().remove(prop_hash@),
            final(self).members_state == old(self).members_state,
            Self::same_vote_state(*old(self), *final(self)),
    {
        let _ = self.proposal_state.apply_ack(prop_hash.as_str(), proposed_to);
        if !self.proposal_state.has_outstanding_acks(prop_hash.as_str()) {
            match self.proposal_state.mark_kv_state_proposed(prop_hash.as_str()) {
                Ok(()) => Ok(()),
                Err(_) => Err(
                    InterchainGovError::InvalidProposalState {
                        prop_id: prop_hash.clone(),
                        expected_state: Some(crate::data_state::DataState::Initiated),
                    },
                ),
            }
        } else {
            Ok(())
        }
    }

    /// A peer acknowledged a reported proposal outcome. Nothing further
    /// is awaited once every peer has acknowledged.
    pub fn proposal_result_callback(&mut self, prop_hash: &String, proposed_to: &String) -> (r:
        Result<(), InterchainGovError>)
        requires
            old(self).well_formed(),
        ensures
            final(self).well_formed(),
            r is Ok,
            final(self).proposal_state.acks_of(prop_hash@) == remove_name(
                old(self).proposal_state.acks_of(prop_hash@),
                proposed_to@,
            ),
            final(self).proposal_state.initiated_map() == old(self).proposal_state.initiated_map(),
            final(self).proposal_state.proposed_map() == old(self).proposal_state.proposed_map(),
            final(self).proposal_state.base_map() == old(self).proposal_state.base_map(),
            final(self).proposal_state.acks_map().remove(prop_hash@) =~= old(self).proposal_state.acks_map().remove(prop_hash@),
            final(self).members_state == old(self).members_state,
            Self::same_vote_state(*old(self), *final(self)),
    {
        let _ = self.proposal_state.apply_ack(prop_hash.as_str(), proposed_to);
        Ok(())
    }

    /// A peer acknowledged a finalize message. When the last awaited peer
    /// acknowledges, this node commits its own pending copy: the proposal
    /// is then durably finalized on the originator too.
    pub fn finalize_callback(&mut self, prop_hash: &String, proposed_to: &String) -> (r: Result<
        (),
        InterchainGovError,
    >)
        requires
            old(self).well_formed(),
        ensures
            final(self).well_formed(),
            final(self).proposal_state.acks_of(prop_hash@) == remove_name(
                old(self).proposal_state.acks_of(prop_hash@),
                proposed_to@,
            ),
            remove_name(old(self).proposal_state.acks_of(prop_hash@), proposed_to@).len() > 0
                ==> r is Ok && final(self).proposal_state.initiated_map() == old(self).proposal_state.initiated_map() && final(self).proposal_state.proposed_map() == old(self).proposal_state.proposed_map() && final(self).proposal_state.base_map() == old(self).proposal_state.base_map(),
            remove_name(old(self).proposal_state.acks_of(prop_hash@), proposed_to@).len() == 0
                && old(self).proposal_state.overlay_proposal_at(prop_hash@) is Some ==> r is Ok
                && final(self).proposal_state.base_map().contains_key(prop_hash@) && final(self).proposal_state.base_map()[prop_hash@].eqv(
                old(self).proposal_state.overlay_proposal_at(prop_hash@).unwrap(),
            ) && !final(self).proposal_state.has_overlay(prop_hash@)
                && final(self).proposal_state.base_map() == old(self).proposal_state.base_map().insert(prop_hash@, final(self).proposal_state.base_map()[prop_hash@])
                && final(self).proposal_state.initiated_map() == old(self).proposal_state.initiated_map().remove(prop_hash@)
                && final(self).proposal_state.proposed_map() == old(self).proposal_state.proposed_map().remove(prop_hash@),
            r is Err ==> final(self).proposal_state.base_map() == old(self).proposal_state.base_map() && final(self).proposal_state.initiated_map() == old(self).proposal_state.initiated_map() && final(self).proposal_state.proposed_map() == old(self).proposal_state.proposed_map(),
            final(self).proposal_state.acks_map().remove(prop_hash@) =~= old(self).proposal_state.acks_map().remove(prop_hash@),
            remove_name(old(self).proposal_state.acks_of(prop_hash@), proposed_to@).len() == 0
                && !old(self).proposal_state.has_overlay(prop_hash@) ==> r == Err::<
                (),
                InterchainGovError,
            >(InterchainGovError::SyncState(SyncStateError::NoProposedState)),
            remove_name(old(self).proposal_state.acks_of(prop_hash@), proposed_to@).len() == 0
                && old(self).proposal_state.has_overlay(prop_hash@) && old(self).proposal_state.overlay_proposal_at(prop_hash@) is None ==> r == Err::<
                (),
                InterchainGovError,
            >(InterchainGovError::SyncState(SyncStateError::DataNotFinalized)),
            final(self).members_state == old(self).members_state,
            Self::same_vote_state(*old(self), *final(self)),
    {
        let ghost gkey = prop_hash@;
        let _ = self.proposal_state.apply_ack(prop_hash.as_str(), proposed_to);
        if !self.proposal_state.has_outstanding_acks(prop_hash.as_str()) {
            match self.proposal_state.finalize_kv_state(prop_hash.clone(), None) {
                Ok(()) => {
                    proof {
                        if old(self).proposal_state.overlay_proposal_at(gkey) is Some {
                            let p = old(self).proposal_state.overlay_proposal_at(gkey).unwrap();
                            let v = self.proposal_state.base_map()[gkey];
                            assert(cloned::<ProposalRecord>(p, v));
                            assert(v.eqv(p));
                        }
                    }
                    Ok(())
                },
                Err(e) => Err(InterchainGovError::SyncState(e)),
            }
        } else {
            Ok(())
        }
    }
}

} // verus!
