//! Lifecycle phase of a replicated data item.
//!
//! A tracked item is `Finalized` when no pending overlay exists for it,
//! `Initiated` when this node originated a not-yet-agreed change, and
//! `Proposed` when another node told us about a change we are holding
//! until we are told to commit it.

use vstd::prelude::*;

verus! {

/// Different statuses for a data item.
#[derive(Clone, Copy, Debug, PartialEq, Eq, Structural)]
pub enum DataState {
    Initiated,
    Proposed,
    Finalized,
}

impl DataState {
    /// Numeric tag for this phase, as stored in a phase-keyed map.
    pub open spec fn spec_num(self) -> u8 {
        match self {
            DataState::Initiated => 0,
            DataState::Proposed => 1,
            DataState::Finalized => 2,
        }
    }

    pub fn is_initiated(&self) -> (r: bool)
        ensures
            r == (*self is Initiated),
    {
        matches!(self, DataState::Initiated)
    }

    pub fn is_proposed(&self) -> (r: bool)
        ensures
            r == (*self is Proposed),
    {
        matches!(self, DataState::Proposed)
    }

    pub fn is_finalized(&self) -> (r: bool)
        ensures
            r == (*self is Finalized),
    {
        matches!(self, DataState::Finalized)
    }

    pub fn to_num(&self) -> (r: u8)
        ensures
            r == self.spec_num(),
    {
        match self {
            DataState::Initiated => 0,
            DataState::Proposed => 1,
            DataState::Finalized => 2,
        }
    }

    /// Inverse of `to_num`: `Some` exactly on the three valid tags.
    pub fn from_num(num: u8) -> (r: Option<DataState>)
        ensures
            match r {
                Some(state) => state.spec_num() == num,
                None => num > 2,
            },
    {
        match num {
            0 => Some(DataState::Initiated),
            1 => Some(DataState::Proposed),
            2 => Some(DataState::Finalized),
            _ => None,
        }
    }
}

} // verus!
