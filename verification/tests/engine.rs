//! The state-synchronization overlay engine on its own.

use interchain_gov::data_state::DataState;
use interchain_gov::map_sync::MapStateSyncController;
use interchain_gov::sync_state::{ItemStateSyncController, StateChange, SyncStateError};

fn s(x: &str) -> String {
    x.to_string()
}

#[test]
fn data_state_round_trip() {
    assert_eq!(DataState::Initiated.to_num(), 0);
    assert_eq!(DataState::Proposed.to_num(), 1);
    assert_eq!(DataState::Finalized.to_num(), 2);
    assert_eq!(DataState::from_num(0), Some(DataState::Initiated));
    assert_eq!(DataState::from_num(1), Some(DataState::Proposed));
    assert_eq!(DataState::from_num(2), Some(DataState::Finalized));
    assert_eq!(DataState::from_num(3), None);
    assert!(DataState::Initiated.is_initiated());
    assert!(!DataState::Initiated.is_proposed());
    assert!(DataState::Proposed.is_proposed());
    assert!(DataState::Finalized.is_finalized());
    assert!(!DataState::Finalized.is_initiated());
}

#[test]
fn item_controller_phase_flow() {
    let mut item: ItemStateSyncController<u64> = ItemStateSyncController::new();
    assert!(item.assert_finalized().is_ok());

    // A proposed overlay blocks a second overlay of either phase.
    assert!(item.propose_item_state(StateChange::Proposal(7)).is_ok());
    assert_eq!(
        item.propose_item_state(StateChange::Proposal(8)),
        Err(SyncStateError::PreExistingState)
    );
    assert_eq!(
        item.initiate_item_state(StateChange::Proposal(8)),
        Err(SyncStateError::DataNotFinalized)
    );
    assert_eq!(item.assert_finalized(), Err(SyncStateError::DataNotFinalized));
    assert!(item.load(DataState::Initiated).is_none());
    assert!(item.load(DataState::Proposed).is_some());
    assert!(item.load(DataState::Finalized).is_none());

    // Finalizing from the overlay clears it.
    assert!(item.finalize_item_state(false).is_ok());
    assert!(item.assert_finalized().is_ok());

    // With no overlay and no supplied value there is nothing to commit.
    assert_eq!(item.finalize_item_state(false), Err(SyncStateError::NoProposedState));
    // The originator path always succeeds: the caller supplies the value.
    assert!(item.finalize_item_state(true).is_ok());
}

#[test]
fn map_phase_invariant() {
    let mut map: MapStateSyncController<u64> = MapStateSyncController::new();
    assert!(map.propose_kv_state(s("k"), 1).is_ok());
    assert_eq!(map.propose_kv_state(s("k"), 2), Err(SyncStateError::PreExistingState));
    assert_eq!(
        map.initiate_kv_state(s("k"), 2, vec![s("b")]),
        Err(SyncStateError::DataNotFinalized)
    );
    assert_eq!(map.data_state("k"), Some(DataState::Proposed));
    assert!(map.load_status("k", DataState::Initiated).is_none());
    assert!(map.load_status("k", DataState::Proposed).is_some());

    // A different key still accepts an initiated overlay.
    assert!(map.initiate_kv_state(s("k2"), 5, vec![s("b"), s("c")]).is_ok());
    assert_eq!(map.data_state("k2"), Some(DataState::Initiated));
    assert!(map.load_status("k2", DataState::Proposed).is_none());
}

#[test]
fn map_finalize_requires_source() {
    let mut map: MapStateSyncController<u64> = MapStateSyncController::new();
    // No overlay: the receiver path has nothing to read.
    assert_eq!(map.finalize_kv_state(s("k"), None), Err(SyncStateError::NoProposedState));
    assert!(!map.has("k"));
    // The originator path always succeeds, overlay or not.
    assert!(map.finalize_kv_state(s("k"), Some(3)).is_ok());
    assert_eq!(map.load("k"), Ok(&3));
    // The receiver path succeeds exactly when a proposed overlay exists.
    assert!(map.propose_kv_state(s("k2"), 9).is_ok());
    assert!(map.finalize_kv_state(s("k2"), None).is_ok());
    assert_eq!(map.load("k2"), Ok(&9));
    assert_eq!(map.data_state("k2"), None);
}

#[test]
fn ack_idempotence() {
    let mut map: MapStateSyncController<u64> = MapStateSyncController::new();
    assert!(map.initiate_kv_state(s("k"), 1, vec![s("b"), s("c")]).is_ok());
    assert!(map.has_outstanding_acks("k"));

    // The first acknowledgment removes the peer.
    assert_eq!(map.apply_ack("k", &s("b")), Some(s("b")));
    // A duplicate delivery is a no-op, not an error.
    assert_eq!(map.apply_ack("k", &s("b")), None);
    assert!(map.has_outstanding_acks("k"));
    assert_eq!(map.apply_ack("k", &s("c")), Some(s("c")));
    assert!(!map.has_outstanding_acks("k"));
    // Acknowledging on an empty set stays a no-op.
    assert_eq!(map.apply_ack("k", &s("c")), None);
}

#[test]
fn map_load_not_found() {
    let mut map: MapStateSyncController<u64> = MapStateSyncController::new();
    assert_eq!(map.load("missing"), Err(SyncStateError::NotFound));
    assert!(map.may_load("missing").is_none());
    assert_eq!(map.assert_proposed("missing"), Err(SyncStateError::DataNotProposed));
    assert!(map.assert_finalized("missing").is_ok());
    assert!(map.mark_kv_state_proposed("missing") == Err(SyncStateError::NotFound));
}

#[test]
fn mark_proposed_moves_overlay() {
    let mut map: MapStateSyncController<u64> = MapStateSyncController::new();
    assert!(map.initiate_kv_state(s("k"), 4, vec![s("b")]).is_ok());
    assert_eq!(map.data_state("k"), Some(DataState::Initiated));
    assert!(map.mark_kv_state_proposed("k").is_ok());
    assert_eq!(map.data_state("k"), Some(DataState::Proposed));
    assert!(map.load_status("k", DataState::Initiated).is_none());
    match map.load_status("k", DataState::Proposed) {
        Some(StateChange::Proposal(v)) => assert_eq!(*v, 4),
        _ => panic!("expected a proposed overlay"),
    }
}
