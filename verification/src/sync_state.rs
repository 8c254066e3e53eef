//! Overlay engine for a single replicated item.
//!
//! A replicated item has a committed base value plus, possibly, one pending
//! overlay: `Initiated` when this node originated the change, `Proposed`
//! when the change arrived from a peer. The engine enforces that at most
//! one overlay exists at a time and that a change can only be started when
//! the item is fully finalized.

use vstd::prelude::*;

use crate::data_state::DataState;

verus! {

/// A pending change held in an overlay slot: either a backup of the
/// pre-change value (informational) or the value awaiting agreement.
#[derive(Debug)]
pub enum StateChange<V> {
    Backup(V),
    Proposal(V),
}

/// Errors of the state-synchronization engine.
#[derive(Clone, Copy, Debug, PartialEq, Eq, Structural)]
pub enum SyncStateError {
    /// An `Initiated` or `Proposed` overlay exists where none may.
    DataNotFinalized,
    /// No `Proposed` overlay exists where one is required.
    DataNotProposed,
    /// No overlay holds a pending value to finalize from.
    NoProposedState,
    /// An overlay already exists for the key being proposed.
    PreExistingState,
    /// No committed entry exists for the requested key.
    NotFound,
}

pub type SyncStateResult<T> = Result<T, SyncStateError>;

/// Overlay slots for one replicated item: at most one entry per phase,
/// and — maintained as an invariant — at most one entry overall.
pub struct ItemStateSyncController<V> {
    pub initiated: Option<StateChange<V>>,
    pub proposed: Option<StateChange<V>>,
}

impl<V> ItemStateSyncController<V> {
    /// The `Initiated` overlay slot.
    pub open spec fn initiated_entry(self) -> Option<StateChange<V>> {
        self.initiated
    }

    /// The `Proposed` overlay slot.
    pub open spec fn proposed_entry(self) -> Option<StateChange<V>> {
        self.proposed
    }

    /// No overlay exists: the item is finalized.
    pub open spec fn is_finalized(self) -> bool {
        self.initiated is None && self.proposed is None
    }

    /// At most one of the `Initiated` and `Proposed` overlays exists.
    pub open spec fn phase_invariant(self) -> bool {
        !(self.initiated is Some && self.proposed is Some)
    }

    pub fn new() -> (r: Self)
        ensures
            r.initiated_entry() is None,
            r.proposed_entry() is None,
            r.phase_invariant(),
    {
        ItemStateSyncController { initiated: None, proposed: None }
    }

    /// The overlay entry at the given phase, if any. `Finalized` is not an
    /// overlay phase and holds no entry.
    pub open spec fn entry_at(self, state: DataState) -> Option<StateChange<V>> {
        match state {
            DataState::Initiated => self.initiated,
            DataState::Proposed => self.proposed,
            DataState::Finalized => None,
        }
    }

    /// The overlay entry at the given phase, if any.
    pub fn load(&self, state: DataState) -> (r: Option<&StateChange<V>>)
        ensures
            r is Some <==> self.entry_at(state) is Some,
            r matches Some(c) ==> self.entry_at(state) == Some(*c),
    {
        match state {
            DataState::Initiated => self.initiated.as_ref(),
            DataState::Proposed => self.proposed.as_ref(),
            DataState::Finalized => None,
        }
    }

    /// The pending state change, reading the `Initiated` slot first.
    /// Errors when no overlay exists.
    pub fn load_state_change(&self) -> (r: SyncStateResult<&StateChange<V>>)
        ensures
            r is Ok <==> !self.is_finalized(),
            r matches Ok(c) ==> if self.initiated_entry() is Some {
                Some(*c) == self.initiated_entry()
            } else {
                Some(*c) == self.proposed_entry()
            },
            r is Err ==> r == Err::<&StateChange<V>, SyncStateError>(
                SyncStateError::NoProposedState,
            ),
    {
        match self.initiated.as_ref() {
            Some(c) => Ok(c),
            None => match self.proposed.as_ref() {
                Some(c) => Ok(c),
                None => Err(SyncStateError::NoProposedState),
            },
        }
    }

    /// Succeeds exactly when no overlay exists for the item.
    pub fn assert_finalized(&self) -> (r: SyncStateResult<()>)
        ensures
            r is Ok <==> self.is_finalized(),
            r is Err ==> r == Err::<(), SyncStateError>(SyncStateError::DataNotFinalized),
    {
        if self.initiated.is_some() || self.proposed.is_some() {
            Err(SyncStateError::DataNotFinalized)
        } else {
            Ok(())
        }
    }

    /// Record a change proposed by a peer. Fails when any overlay already
    /// exists, leaving the controller unchanged.
    pub fn propose_item_state(&mut self, state: StateChange<V>) -> (r: SyncStateResult<()>)
        ensures
            r is Ok <==> old(self).is_finalized(),
            r is Ok ==> final(self).initiated_entry() is None && final(self).proposed_entry()
                == Some(state),
            r is Err ==> *final(self) == *old(self) && r == Err::<(), SyncStateError>(
                SyncStateError::PreExistingState,
            ),
            old(self).phase_invariant() ==> final(self).phase_invariant(),
    {
        if self.initiated.is_some() || self.proposed.is_some() {
            Err(SyncStateError::PreExistingState)
        } else {
            self.proposed = Some(state);
            Ok(())
        }
    }

    /// Record a change originated by this node. Fails when any overlay
    /// already exists, leaving the controller unchanged.
    pub fn initiate_item_state(&mut self, state: StateChange<V>) -> (r: SyncStateResult<()>)
        ensures
            r is Ok <==> old(self).is_finalized(),
            r is Ok ==> final(self).initiated_entry() == Some(state)
                && final(self).proposed_entry() is None,
            r is Err ==> *final(self) == *old(self) && r == Err::<(), SyncStateError>(
                SyncStateError::DataNotFinalized,
            ),
            old(self).phase_invariant() ==> final(self).phase_invariant(),
    {
        if self.initiated.is_some() || self.proposed.is_some() {
            Err(SyncStateError::DataNotFinalized)
        } else {
            self.initiated = Some(state);
            Ok(())
        }
    }

    /// Drop whatever overlay exists. When none exists, succeed only if the
    /// committed value was supplied directly (`set`); otherwise there is no
    /// pending value to finalize from.
    pub fn finalize_item_state(&mut self, set: bool) -> (r: SyncStateResult<()>)
        ensures
            r is Ok <==> (set || !old(self).is_finalized()),
            r is Ok ==> final(self).initiated_entry() is None,
            r is Ok && old(self).initiated_entry() is Some
                ==> final(self).proposed_entry() == old(self).proposed_entry(),
            r is Ok && old(self).initiated_entry() is None
                ==> final(self).proposed_entry() is None,
            r is Err ==> *final(self) == *old(self) && r == Err::<(), SyncStateError>(
                SyncStateError::NoProposedState,
            ),
            old(self).phase_invariant() ==> final(self).phase_invariant(),
            old(self).phase_invariant() && r is Ok ==> final(self).is_finalized(),
    {
        if self.initiated.is_some() {
            self.initiated = None;
            Ok(())
        } else if self.proposed.is_some() {
            self.proposed = None;
            Ok(())
        } else if !set {
            Err(SyncStateError::NoProposedState)
        } else {
            Ok(())
        }
    }
}

} // verus!
