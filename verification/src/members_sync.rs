//! Synchronization of the group's member set.
//!
//! The member set is the one replicated item every peer must agree on.
//! It wraps the single-item overlay engine: a change is `Initiated` by the
//! node that proposes it, acknowledged by every other member, and then
//! committed on all of them.

use vstd::prelude::*;

use crate::names::{
    clone_names, contains_name, lemma_remove_name_absent, remove_first_name, remove_name,
    unique_names,
};
use crate::state::Members;
use crate::sync_state::{ItemStateSyncController, StateChange, SyncStateError, SyncStateResult};

verus! {

/// The committed member set, its pending overlay, and the peers whose
/// acknowledgment of a member-set change is still awaited.
pub struct MembersSyncState {
    /// The name of this node.
    pub self_chain: String,
    /// The committed member set; always includes this node at
    /// instantiation.
    pub members: Members,
    /// The overlay for the member set.
    pub item_state: ItemStateSyncController<Members>,
    /// The peers that must acknowledge the change in flight.
    pub outstanding_acks: Vec<String>,
}

impl MembersSyncState {
    /// The committed peer names.
    pub open spec fn member_names(self) -> Seq<String> {
        self.members.names()
    }

    /// The peers whose acknowledgment is still awaited.
    pub open spec fn acks(self) -> Seq<String> {
        self.outstanding_acks@
    }

    /// The pending state change, reading `Initiated` first.
    pub open spec fn pending_change(self) -> Option<StateChange<Members>> {
        if self.item_state.initiated is Some {
            self.item_state.initiated
        } else {
            self.item_state.proposed
        }
    }

    /// The pending member set, when the overlay holds a proposal.
    pub open spec fn pending_members(self) -> Option<Members> {
        match self.pending_change() {
            Some(StateChange::Proposal(m)) => Some(m),
            _ => None,
        }
    }

    /// A state change never stores a member list with duplicates.
    pub open spec fn change_well_formed(c: Option<StateChange<Members>>) -> bool {
        match c {
            Some(StateChange::Proposal(m)) => m.well_formed(),
            _ => true,
        }
    }

    pub open spec fn well_formed(self) -> bool {
        &&& self.members.well_formed()
        &&& unique_names(self.acks())
        &&& self.item_state.phase_invariant()
        &&& Self::change_well_formed(self.item_state.initiated)
        &&& Self::change_well_formed(self.item_state.proposed)
    }

    /// The state of a freshly instantiated node: the group is this node
    /// alone, fully finalized, with nothing awaited.
    pub fn new(self_chain: String) -> (r: Self)
        ensures
            r.self_chain == self_chain,
            r.member_names() == seq![self_chain],
            r.item_state.is_finalized(),
            r.acks() == Seq::<String>::empty(),
            r.well_formed(),
    {
        let members = Members::new(self_chain.clone());
        MembersSyncState {
            self_chain,
            members,
            item_state: ItemStateSyncController::new(),
            outstanding_acks: Vec::new(),
        }
    }

    /// The committed member set.
    pub fn load_members(&self) -> (r: Members)
        ensures
            r.names() == self.member_names(),
    {
        self.members.clone()
    }

    /// Replace the committed member set.
    pub fn save_members(&mut self, members: Members)
        requires
            members.well_formed(),
        ensures
            final(self).members == members,
            final(self).self_chain == old(self).self_chain,
            final(self).item_state == old(self).item_state,
            final(self).acks() == old(self).acks(),
            old(self).well_formed() ==> final(self).well_formed(),
    {
        self.members = members;
    }

    /// The committed members other than this node.
    pub fn external_members(&self) -> (r: Members)
        requires
            self.members.well_formed(),
        ensures
            r.names() == remove_name(self.member_names(), self.self_chain@),
            r.well_formed(),
            !contains_name(r.names(), self.self_chain@),
            forall|n: Seq<char>|
                n != self.self_chain@ ==> (contains_name(r.names(), n) <==> contains_name(
                    self.member_names(),
                    n,
                )),
    {
        let mut names = clone_names(&self.members.members);
        let _removed = remove_first_name(&mut names, &self.self_chain);
        proof {
            if contains_name(self.member_names(), self.self_chain@) {
                let i = choose|i: int|
                    0 <= i < self.member_names().len() && self.member_names()[i]@
                        == self.self_chain@;
                crate::names::lemma_remove_name_present(
                    self.member_names(),
                    self.self_chain@,
                    i,
                );
            } else {
                lemma_remove_name_absent(self.member_names(), self.self_chain@);
            }
        }
        Members { members: names }
    }

    /// The pending state change; errors when no overlay exists.
    pub fn load_state_change(&self) -> (r: SyncStateResult<&StateChange<Members>>)
        ensures
            r is Ok <==> !self.item_state.is_finalized(),
            r matches Ok(c) ==> self.pending_change() == Some(*c),
            r is Err ==> r == Err::<&StateChange<Members>, SyncStateError>(
                SyncStateError::NoProposedState,
            ),
    {
        self.item_state.load_state_change()
    }

    /// Start a member-set change on the originating node: record the
    /// pending set and await an acknowledgment from every other committed
    /// member. Fails when the member set is not finalized, leaving the
    /// state unchanged.
    pub fn initiate_members(&mut self, members: Members) -> (r: SyncStateResult<()>)
        requires
            old(self).well_formed(),
            members.well_formed(),
        ensures
            r is Ok <==> old(self).item_state.is_finalized(),
            r is Ok ==> final(self).item_state.initiated == Some(
                StateChange::<Members>::Proposal(members),
            ) && final(self).item_state.proposed is None && final(self).acks() == remove_name(
                old(self).member_names(),
                old(self).self_chain@,
            ),
            r is Err ==> *final(self) == *old(self) && r == Err::<(), SyncStateError>(
                SyncStateError::DataNotFinalized,
            ),
            final(self).members == old(self).members,
            final(self).self_chain == old(self).self_chain,
            final(self).well_formed(),
    {
        let ext = self.external_members();
        match self.item_state.initiate_item_state(StateChange::Proposal(members)) {
            Ok(()) => {
                self.outstanding_acks = ext.members;
                Ok(())
            },
            Err(e) => Err(e),
        }
    }

    /// Remove `chain` from the outstanding-acknowledgment set if present,
    /// returning the removed name. Re-acknowledging an absent peer is a
    /// no-op, not an error, so duplicate deliveries are tolerated.
    pub fn apply_ack(&mut self, chain: &String) -> (r: Option<String>)
        ensures
            final(self).acks() == remove_name(old(self).acks(), chain@),
            r is Some <==> contains_name(old(self).acks(), chain@),
            r matches Some(c) ==> c@ == chain@,
            r is None ==> final(self).acks() == old(self).acks(),
            final(self).members == old(self).members,
            final(self).self_chain == old(self).self_chain,
            final(self).item_state == old(self).item_state,
            old(self).well_formed() ==> final(self).well_formed(),
    {
        remove_first_name(&mut self.outstanding_acks, chain)
    }

    /// Some peer has not yet acknowledged the change in flight.
    pub fn has_outstanding_acks(&self) -> (r: bool)
        ensures
            r == (self.acks().len() > 0),
    {
        self.outstanding_acks.len() > 0
    }

    /// Record a member-set change announced by a peer. Fails when any
    /// overlay already exists, leaving the state unchanged.
    pub fn propose_members(&mut self, members: Members) -> (r: SyncStateResult<()>)
        requires
            members.well_formed(),
        ensures
            r is Ok <==> old(self).item_state.is_finalized(),
            r is Ok ==> final(self).item_state.proposed == Some(
                StateChange::<Members>::Proposal(members),
            ) && final(self).item_state.initiated is None,
            r is Err ==> *final(self) == *old(self) && r == Err::<(), SyncStateError>(
                SyncStateError::PreExistingState,
            ),
            final(self).members == old(self).members,
            final(self).self_chain == old(self).self_chain,
            final(self).acks() == old(self).acks(),
            old(self).well_formed() ==> final(self).well_formed(),
    {
        self.item_state.propose_item_state(StateChange::Proposal(members))
    }

    /// Commit a member set and drop the overlay. With `Some(members)` the
    /// caller supplies the set directly and the call always succeeds; with
    /// `None` the set is read back out of the pending overlay, failing
    /// with `NoProposedState` when no overlay exists, and leaving the
    /// state unchanged on any failure.
    pub fn finalize_members(&mut self, members: Option<Members>) -> (r: SyncStateResult<()>)
        requires
            old(self).well_formed(),
            members matches Some(m) ==> m.well_formed(),
        ensures
            members matches Some(m) ==> r is Ok && final(self).members == m,
            members is None && old(self).pending_members() is Some
                ==> r is Ok
                && final(self).members.names() == old(self).pending_members().unwrap().names(),
            members is None && old(self).item_state.is_finalized()
                ==> r == Err::<(), SyncStateError>(SyncStateError::NoProposedState)
                && *final(self) == *old(self),
            members is None && !old(self).item_state.is_finalized()
                && old(self).pending_members() is None
                ==> r == Err::<(), SyncStateError>(SyncStateError::DataNotFinalized)
                && *final(self) == *old(self),
            r is Ok ==> final(self).item_state.is_finalized(),
            final(self).self_chain == old(self).self_chain,
            final(self).acks() == old(self).acks(),
            final(self).well_formed(),
    {
        match members {
            Some(m) => {
                self.members = m;
                match self.item_state.finalize_item_state(true) {
                    Ok(()) => Ok(()),
                    Err(e) => Err(e),
                }
            },
            None => {
                let pending = match self.item_state.load_state_change() {
                    Ok(c) => match c {
                        StateChange::Proposal(m) => m.clone(),
                        StateChange::Backup(_) => {
                            return Err(SyncStateError::DataNotFinalized);
                        },
                    },
                    Err(e) => {
                        return Err(e);
                    },
                };
                match self.item_state.finalize_item_state(false) {
                    Ok(()) => {
                        self.members = pending;
                        Ok(())
                    },
                    Err(e) => Err(e),
                }
            },
        }
    }

    /// Succeeds exactly when no member-set overlay exists.
    pub fn assert_finalized(&self) -> (r: SyncStateResult<()>)
        ensures
            r is Ok <==> self.item_state.is_finalized(),
            r is Err ==> r == Err::<(), SyncStateError>(SyncStateError::DataNotFinalized),
    {
        self.item_state.assert_finalized()
    }
}

} // verus!
