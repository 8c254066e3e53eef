//! Overlay engine for a keyed collection of replicated values.
//!
//! Each key has a committed base entry plus, possibly, one pending overlay
//! tagged `Initiated` (this node originated the change) or `Proposed` (a
//! peer announced it). One outstanding-acknowledgment set tracks the peers
//! that must confirm the change in flight. The engine maintains the phase
//! invariant: for every key at most one of the two overlays exists.

use vstd::hash_map::StringHashMap;
use vstd::prelude::*;

use crate::data_state::DataState;
use crate::names::{contains_name, remove_name, unique_names};
use crate::sync_state::{StateChange, SyncStateError, SyncStateResult};

verus! {

/// Committed base map, the two overlay maps, and the per-key
/// outstanding-acknowledgment sets for the changes in flight.
#[verifier::reject_recursive_types(V)]
pub struct MapStateSyncController<V> {
    pub base: StringHashMap<V>,
    pub initiated: StringHashMap<StateChange<V>>,
    pub proposed: StringHashMap<StateChange<V>>,
    pub outstanding_acks: StringHashMap<Vec<String>>,
}

impl<V> MapStateSyncController<V> {
    /// The committed entries.
    pub open spec fn base_map(self) -> Map<Seq<char>, V> {
        self.base@
    }

    /// The overlays this node originated.
    pub open spec fn initiated_map(self) -> Map<Seq<char>, StateChange<V>> {
        self.initiated@
    }

    /// The overlays announced by peers.
    pub open spec fn proposed_map(self) -> Map<Seq<char>, StateChange<V>> {
        self.proposed@
    }

    /// The per-key outstanding-acknowledgment sets.
    pub open spec fn acks_map(self) -> Map<Seq<char>, Vec<String>> {
        self.outstanding_acks@
    }

    /// The peers whose acknowledgment is still awaited for `key`; empty
    /// when no set was ever registered for it.
    pub open spec fn acks_of(self, key: Seq<char>) -> Seq<String> {
        if self.outstanding_acks@.contains_key(key) {
            self.outstanding_acks@[key]@
        } else {
            Seq::<String>::empty()
        }
    }

    /// Some overlay exists for `key`.
    pub open spec fn has_overlay(self, key: Seq<char>) -> bool {
        self.initiated_map().contains_key(key) || self.proposed_map().contains_key(key)
    }

    /// The overlay entry for `key`, reading `Initiated` first.
    pub open spec fn overlay_change_at(self, key: Seq<char>) -> Option<StateChange<V>> {
        if self.initiated_map().contains_key(key) {
            Some(self.initiated_map()[key])
        } else if self.proposed_map().contains_key(key) {
            Some(self.proposed_map()[key])
        } else {
            None
        }
    }

    /// The pending value for `key`, when its overlay holds a proposal.
    pub open spec fn overlay_proposal_at(self, key: Seq<char>) -> Option<V> {
        match self.overlay_change_at(key) {
            Some(StateChange::Proposal(v)) => Some(v),
            _ => None,
        }
    }

    /// For every key, at most one of the `Initiated` and `Proposed`
    /// overlays exists.
    pub open spec fn phase_invariant(self) -> bool {
        forall|k: Seq<char>|
            !(#[trigger] self.initiated_map().contains_key(k)
                && self.proposed_map().contains_key(k))
    }

    /// No outstanding-acknowledgment set holds a peer twice.
    pub open spec fn acks_unique(self) -> bool {
        forall|k: Seq<char>|
            #[trigger] self.outstanding_acks@.contains_key(k) ==> unique_names(
                self.outstanding_acks@[k]@,
            )
    }

    pub open spec fn well_formed(self) -> bool {
        self.phase_invariant() && self.acks_unique()
    }

    pub fn new() -> (r: Self)
        ensures
            r.base_map() == Map::<Seq<char>, V>::empty(),
            r.initiated_map() == Map::<Seq<char>, StateChange<V>>::empty(),
            r.proposed_map() == Map::<Seq<char>, StateChange<V>>::empty(),
            r.acks_map() == Map::<Seq<char>, Vec<String>>::empty(),
            r.well_formed(),
    {
        MapStateSyncController {
            base: StringHashMap::new(),
            initiated: StringHashMap::new(),
            proposed: StringHashMap::new(),
            outstanding_acks: StringHashMap::new(),
        }
    }

    /// The phase of the overlay for `key`, or `None` when the key is
    /// finalized (no overlay).
    pub fn data_state(&self, key: &str) -> (r: Option<DataState>)
        ensures
            match r {
                Some(DataState::Initiated) => self.initiated_map().contains_key(key@),
                Some(DataState::Proposed) => !self.initiated_map().contains_key(key@)
                    && self.proposed_map().contains_key(key@),
                Some(DataState::Finalized) => false,
                None => !self.has_overlay(key@),
            },
    {
        if self.initiated.contains_key(key) {
            Some(DataState::Initiated)
        } else if self.proposed.contains_key(key) {
            Some(DataState::Proposed)
        } else {
            None
        }
    }

    /// A committed entry exists for `key`.
    pub fn has(&self, key: &str) -> (r: bool)
        ensures
            r == self.base_map().contains_key(key@),
    {
        self.base.contains_key(key)
    }

    /// The committed entry for `key`, if any.
    pub fn may_load(&self, key: &str) -> (r: Option<&V>)
        ensures
            r is Some <==> self.base_map().contains_key(key@),
            r matches Some(v) ==> *v == self.base_map()[key@],
    {
        self.base.get(key)
    }

    /// The committed entry for `key`; errors when none exists.
    pub fn load(&self, key: &str) -> (r: SyncStateResult<&V>)
        ensures
            r is Ok <==> self.base_map().contains_key(key@),
            r matches Ok(v) ==> *v == self.base_map()[key@],
            r is Err ==> r == Err::<&V, SyncStateError>(SyncStateError::NotFound),
    {
        match self.base.get(key) {
            Some(v) => Ok(v),
            None => Err(SyncStateError::NotFound),
        }
    }

    /// The overlay entry for `key` at the given phase, if any.
    /// `Finalized` is not an overlay phase and holds no entry.
    pub open spec fn status_at(self, key: Seq<char>, state: DataState) -> Option<StateChange<V>> {
        match state {
            DataState::Initiated => if self.initiated_map().contains_key(key) {
                Some(self.initiated_map()[key])
            } else {
                None
            },
            DataState::Proposed => if self.proposed_map().contains_key(key) {
                Some(self.proposed_map()[key])
            } else {
                None
            },
            DataState::Finalized => None,
        }
    }

    /// The overlay entry for `key` at the given phase, if any.
    pub fn load_status(&self, key: &str, state: DataState) -> (r: Option<&StateChange<V>>)
        ensures
            r is Some <==> self.status_at(key@, state) is Some,
            r matches Some(c) ==> self.status_at(key@, state) == Some(*c),
    {
        match state {
            DataState::Initiated => self.initiated.get(key),
            DataState::Proposed => self.proposed.get(key),
            DataState::Finalized => None,
        }
    }

    /// The pending state change for `key`, reading `Initiated` first.
    /// Errors when no overlay exists.
    pub fn load_state_change(&self, key: &str) -> (r: SyncStateResult<&StateChange<V>>)
        ensures
            r is Ok <==> self.has_overlay(key@),
            r matches Ok(c) ==> self.overlay_change_at(key@) == Some(*c),
            r is Err ==> r == Err::<&StateChange<V>, SyncStateError>(
                SyncStateError::NoProposedState,
            ),
    {
        match self.initiated.get(key) {
            Some(c) => Ok(c),
            None => match self.proposed.get(key) {
                Some(c) => Ok(c),
                None => Err(SyncStateError::NoProposedState),
            },
        }
    }

    /// Succeeds exactly when no overlay exists for `key`.
    pub fn assert_finalized(&self, key: &str) -> (r: SyncStateResult<()>)
        ensures
            r is Ok <==> !self.has_overlay(key@),
            r is Err ==> r == Err::<(), SyncStateError>(SyncStateError::DataNotFinalized),
    {
        if self.initiated.contains_key(key) || self.proposed.contains_key(key) {
            Err(SyncStateError::DataNotFinalized)
        } else {
            Ok(())
        }
    }

    /// Succeeds exactly when a `Proposed` overlay exists for `key`.
    pub fn assert_proposed(&self, key: &str) -> (r: SyncStateResult<()>)
        ensures
            r is Ok <==> self.proposed_map().contains_key(key@),
            r is Err ==> r == Err::<(), SyncStateError>(SyncStateError::DataNotProposed),
    {
        if self.proposed.contains_key(key) {
            Ok(())
        } else {
            Err(SyncStateError::DataNotProposed)
        }
    }

    /// Record a pending value announced by a peer. Fails when any overlay
    /// already exists for `key`, leaving the controller unchanged.
    pub fn propose_kv_state(&mut self, key: String, proposal_value: V) -> (r: SyncStateResult<()>)
        ensures
            r is Ok <==> !old(self).has_overlay(key@),
            r is Ok ==> final(self).proposed_map() == old(self).proposed_map().insert(
                key@,
                StateChange::Proposal(proposal_value),
            ),
            r is Ok ==> final(self).initiated_map() == old(self).initiated_map(),
            r is Err ==> *final(self) == *old(self) && r == Err::<(), SyncStateError>(
                SyncStateError::PreExistingState,
            ),
            final(self).base_map() == old(self).base_map(),
            final(self).acks_map() == old(self).acks_map(),
            old(self).well_formed() ==> final(self).well_formed(),
    {
        if self.initiated.contains_key(key.as_str()) || self.proposed.contains_key(key.as_str()) {
            Err(SyncStateError::PreExistingState)
        } else {
            self.proposed.insert(key, StateChange::Proposal(proposal_value));
            Ok(())
        }
    }

    /// Record a pending value originated by this node and register the
    /// peers whose acknowledgment it requires. Fails when any overlay
    /// already exists for `key`, leaving the controller unchanged.
    pub fn initiate_kv_state(
        &mut self,
        key: String,
        initiated_value: V,
        outstanding_acks: Vec<String>,
    ) -> (r: SyncStateResult<()>)
        requires
            unique_names(outstanding_acks@),
        ensures
            r is Ok <==> !old(self).has_overlay(key@),
            r is Ok ==> final(self).initiated_map() == old(self).initiated_map().insert(
                key@,
                StateChange::Proposal(initiated_value),
            ),
            r is Ok ==> final(self).proposed_map() == old(self).proposed_map(),
            r is Ok ==> final(self).acks_map() == old(self).acks_map().insert(
                key@,
                outstanding_acks,
            ),
            r is Ok ==> final(self).acks_of(key@) == outstanding_acks@,
            r is Err ==> *final(self) == *old(self) && r == Err::<(), SyncStateError>(
                SyncStateError::DataNotFinalized,
            ),
            final(self).base_map() == old(self).base_map(),
            old(self).well_formed() ==> final(self).well_formed(),
    {
        if self.initiated.contains_key(key.as_str()) || self.proposed.contains_key(key.as_str()) {
            Err(SyncStateError::DataNotFinalized)
        } else {
            let ack_key = key.clone();
            self.initiated.insert(key, StateChange::Proposal(initiated_value));
            self.outstanding_acks.insert(ack_key, outstanding_acks);
            proof {
                if old(self).well_formed() {
                    assert forall|k: Seq<char>|
                        #[trigger] self.outstanding_acks@.contains_key(k) implies unique_names(
                        self.outstanding_acks@[k]@,
                    ) by {
                        if k != ack_key@ {
                            assert(old(self).outstanding_acks@.contains_key(k));
                        }
                    }
                }
            }
            Ok(())
        }
    }

    /// Replace the outstanding-acknowledgment set of `key`, as done when
    /// a new broadcast round starts for it.
    pub fn set_outstanding_finalization_acks(&mut self, key: String, acks: Vec<String>)
        requires
            unique_names(acks@),
        ensures
            final(self).acks_map() == old(self).acks_map().insert(key@, acks),
            final(self).acks_of(key@) == acks@,
            final(self).base_map() == old(self).base_map(),
            final(self).initiated_map() == old(self).initiated_map(),
            final(self).proposed_map() == old(self).proposed_map(),
            old(self).well_formed() ==> final(self).well_formed(),
    {
        let ghost gkey = key@;
        self.outstanding_acks.insert(key, acks);
        proof {
            if old(self).well_formed() {
                assert forall|k: Seq<char>|
                    #[trigger] self.outstanding_acks@.contains_key(k) implies unique_names(
                    self.outstanding_acks@[k]@,
                ) by {
                    if k != gkey {
                        assert(old(self).outstanding_acks@.contains_key(k));
                    }
                }
                assert forall|k: Seq<char>|
                    !(#[trigger] self.initiated_map().contains_key(k)
                        && self.proposed_map().contains_key(k)) by {
                    assert(!(old(self).initiated_map().contains_key(k)
                        && old(self).proposed_map().contains_key(k)));
                }
            }
        }
    }

    /// Remove `chain` from the outstanding-acknowledgment set of `key` if
    /// present, returning the removed name. Re-acknowledging an absent
    /// peer is a no-op, not an error, so duplicate deliveries are
    /// tolerated.
    pub fn apply_ack(&mut self, key: &str, chain: &String) -> (r: Option<String>)
        ensures
            final(self).acks_of(key@) == remove_name(old(self).acks_of(key@), chain@),
            r is Some <==> contains_name(old(self).acks_of(key@), chain@),
            r matches Some(c) ==> c@ == chain@,
            r is None ==> final(self).acks_map() == old(self).acks_map(),
            final(self).acks_map().remove(key@) =~= old(self).acks_map().remove(key@),
            final(self).base_map() == old(self).base_map(),
            final(self).initiated_map() == old(self).initiated_map(),
            final(self).proposed_map() == old(self).proposed_map(),
            old(self).well_formed() ==> final(self).well_formed(),
    {
        let ghost gkey = key@;
        let list = match self.outstanding_acks.get(key) {
            Some(l) => l,
            None => {
                proof {
                    crate::names::lemma_remove_name_absent(Seq::<String>::empty(), chain@);
                }
                return None;
            },
        };
        let mut updated = crate::names::clone_names(list);
        let r = crate::names::remove_first_name(&mut updated, chain);
        match r {
            None => None,
            Some(c) => {
                self.outstanding_acks.insert(key.to_owned(), updated);
                proof {
                    if old(self).well_formed() {
                        assert forall|k: Seq<char>|
                            #[trigger] self.outstanding_acks@.contains_key(k) implies unique_names(
                            self.outstanding_acks@[k]@,
                        ) by {
                            if k != gkey {
                                assert(old(self).outstanding_acks@.contains_key(k));
                            } else {
                                crate::names::lemma_remove_name_unique(
                                    old(self).acks_of(gkey),
                                    chain@,
                                );
                            }
                        }
                        assert forall|k: Seq<char>|
                            !(#[trigger] self.initiated_map().contains_key(k)
                                && self.proposed_map().contains_key(k)) by {
                            assert(!(old(self).initiated_map().contains_key(k)
                                && old(self).proposed_map().contains_key(k)));
                        }
                    }
                }
                Some(c)
            },
        }
    }

    /// Some peer has not yet acknowledged the change in flight for `key`.
    pub fn has_outstanding_acks(&self, key: &str) -> (r: bool)
        ensures
            r == (self.acks_of(key@).len() > 0),
    {
        match self.outstanding_acks.get(key) {
            Some(l) => l.len() > 0,
            None => false,
        }
    }
}

/// Acknowledgment idempotence: applying the same acknowledgment twice
/// has the same effect as applying it once. The outstanding set of a
/// well-formed controller shrinks by at most the one membership of the
/// acknowledging peer, however often the callback is delivered.
pub proof fn lemma_ack_idempotent<V>(
    m: MapStateSyncController<V>,
    key: Seq<char>,
    chain: Seq<char>,
)
    requires
        m.well_formed(),
    ensures
        remove_name(remove_name(m.acks_of(key), chain), chain) == remove_name(
            m.acks_of(key),
            chain,
        ),
{
    assert(unique_names(m.acks_of(key)));
    crate::names::lemma_remove_name_idempotent(m.acks_of(key), chain);
}

/// Phase invariant: for every key of a well-formed controller, at most
/// one of the `Initiated` and `Proposed` overlays exists, and the
/// presence of either is exactly what keeps the key from counting as
/// finalized.
pub proof fn lemma_phase_exclusive<V>(m: MapStateSyncController<V>, key: Seq<char>)
    requires
        m.well_formed(),
    ensures
        !(m.initiated_map().contains_key(key) && m.proposed_map().contains_key(key)),
        m.has_overlay(key) <==> m.overlay_change_at(key) is Some,
{
}

/// `b` holds the same kind of state change as `a`, with a payload that a
/// clone of `a`'s payload could have produced.
pub open spec fn state_change_cloned<V: Clone>(a: StateChange<V>, b: StateChange<V>) -> bool {
    match (a, b) {
        (StateChange::Proposal(x), StateChange::Proposal(y)) => cloned::<V>(x, y),
        (StateChange::Backup(x), StateChange::Backup(y)) => cloned::<V>(x, y),
        _ => false,
    }
}

impl<V: Clone> MapStateSyncController<V> {
    /// Move the overlay for `key` from `Initiated` to `Proposed`: the
    /// change this node originated has been acknowledged by every peer
    /// and is now ready to finalize. Fails when this node holds no
    /// `Initiated` overlay for `key`, leaving the controller unchanged.
    pub fn mark_kv_state_proposed(&mut self, key: &str) -> (r: SyncStateResult<()>)
        ensures
            r is Ok <==> old(self).initiated_map().contains_key(key@),
            r is Err ==> *final(self) == *old(self) && r == Err::<(), SyncStateError>(
                SyncStateError::NotFound,
            ),
            r is Ok ==> final(self).initiated_map() == old(self).initiated_map().remove(key@),
            r is Ok ==> final(self).proposed_map().contains_key(key@)
                && final(self).proposed_map() == old(self).proposed_map().insert(
                key@,
                final(self).proposed_map()[key@],
            )
                && state_change_cloned(
                old(self).initiated_map()[key@],
                final(self).proposed_map()[key@],
            ),
            final(self).base_map() == old(self).base_map(),
            final(self).acks_map() == old(self).acks_map(),
            old(self).well_formed() ==> final(self).well_formed(),
    {
        let ghost gkey = key@;
        let change = match self.initiated.get(key) {
            None => {
                return Err(SyncStateError::NotFound);
            },
            Some(c) => match c {
                StateChange::Proposal(v) => StateChange::Proposal(v.clone()),
                StateChange::Backup(v) => StateChange::Backup(v.clone()),
            },
        };
        self.initiated.remove(key);
        self.proposed.insert(key.to_owned(), change);
        proof {
            if old(self).well_formed() {
                assert forall|k: Seq<char>|
                    !(#[trigger] self.initiated_map().contains_key(k)
                        && self.proposed_map().contains_key(k)) by {
                    assert(!(old(self).initiated_map().contains_key(k)
                        && old(self).proposed_map().contains_key(k)));
                }
            }
        }
        Ok(())
    }

    /// Commit a value for `key` and drop its overlay. With `Some(value)`
    /// the caller supplies the value (the originator remembers what it
    /// initiated) and the call always succeeds. With `None` the value is
    /// read back out of the pending overlay (the receiver path), failing
    /// with `NoProposedState` when no overlay exists, and leaving the
    /// controller unchanged on any failure.
    pub fn finalize_kv_state(&mut self, key: String, value: Option<V>) -> (r: SyncStateResult<()>)
        ensures
            final(self).acks_map() == old(self).acks_map(),
            r is Ok ==> final(self).initiated_map() == old(self).initiated_map().remove(key@)
                && final(self).proposed_map() == old(self).proposed_map().remove(key@)
                && final(self).base_map().contains_key(key@)
                && final(self).base_map() == old(self).base_map().insert(
                key@,
                final(self).base_map()[key@],
            ),
            value matches Some(v) ==> r is Ok && final(self).base_map()[key@] == v,
            value is None && (old(self).overlay_proposal_at(key@) matches Some(p)) ==> r is Ok
                && cloned::<V>(
                old(self).overlay_proposal_at(key@).unwrap(),
                final(self).base_map()[key@],
            ),
            value is None && !old(self).has_overlay(key@) ==> r == Err::<(), SyncStateError>(
                SyncStateError::NoProposedState,
            ) && *final(self) == *old(self),
            value is None && old(self).has_overlay(key@) && old(self).overlay_proposal_at(
                key@,
            ) is None ==> r == Err::<(), SyncStateError>(SyncStateError::DataNotFinalized)
                && *final(self) == *old(self),
            old(self).well_formed() ==> final(self).well_formed(),
    {
        let val: V = match value {
            Some(v) => v,
            None => {
                let change = match self.load_state_change(key.as_str()) {
                    Ok(c) => c,
                    Err(e) => {
                        return Err(e);
                    },
                };
                match change {
                    StateChange::Proposal(v) => v.clone(),
                    StateChange::Backup(_) => {
                        return Err(SyncStateError::DataNotFinalized);
                    },
                }
            },
        };
        self.initiated.remove(key.as_str());
        self.proposed.remove(key.as_str());
        self.base.insert(key, val);
        Ok(())
    }
}

} // verus!
