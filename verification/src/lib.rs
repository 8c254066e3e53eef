//! A replicated state-synchronization engine for a group of peers that
//! agree on a shared member set and on governance proposals without a
//! central coordinator, communicating only through asynchronous
//! point-to-point messages with separately delivered acknowledgments.
//!
//! The engine is pure with respect to its state value: every operation
//! is one atomic transition that either succeeds or leaves the state
//! unchanged, and every outbound message is returned as data for the
//! surrounding transport to deliver.

pub mod callbacks;
pub mod data_state;
pub mod error;
pub mod gov;
pub mod hash;
pub mod icq;
pub mod map_sync;
pub mod members_sync;
pub mod module_ibc;
pub mod msg;
pub mod names;
pub mod queries;
pub mod state;
pub mod sync_state;
pub mod votes;
