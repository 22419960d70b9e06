//! The epochs of the Stacks chain.
use std::cmp::Ordering;
use vstd::prelude::*;

verus! {

/// A span of the chain's history with its own consensus rules, the earliest first.
#[derive(Debug, Clone, Copy, PartialEq, Eq, Hash, Structural)]
pub enum StacksEpochId {
    Epoch10,
    Epoch20,
    Epoch2_05,
    Epoch21,
}

impl StacksEpochId {
    /// The place of the epoch in the chain's history.
    pub open spec fn rank(self) -> int {
        match self {
            StacksEpochId::Epoch10 => 0,
            StacksEpochId::Epoch20 => 1,
            StacksEpochId::Epoch2_05 => 2,
            StacksEpochId::Epoch21 => 3,
        }
    }

    /// The place of the epoch in the chain's history.
    fn number(&self) -> (rank: u8)
        ensures
            rank == self.rank(),
    {
        match self {
            StacksEpochId::Epoch10 => 0,
            StacksEpochId::Epoch20 => 1,
            StacksEpochId::Epoch2_05 => 2,
            StacksEpochId::Epoch21 => 3,
        }
    }
}

impl PartialOrd for StacksEpochId {
    fn partial_cmp(&self, other: &StacksEpochId) -> (order: Option<Ordering>) {
        let (mine, theirs): (u8, u8) = (self.number(), other.number());
        if mine < theirs {
            Some(Ordering::Less)
        } else if mine == theirs {
            Some(Ordering::Equal)
        } else {
            Some(Ordering::Greater)
        }
    }
}

impl vstd::std_specs::cmp::PartialOrdSpecImpl for StacksEpochId {
    open spec fn obeys_partial_cmp_spec() -> bool {
        true
    }

    open spec fn partial_cmp_spec(&self, other: &StacksEpochId) -> Option<Ordering> {
        if self.rank() < other.rank() {
            Some(Ordering::Less)
        } else if self.rank() == other.rank() {
            Some(Ordering::Equal)
        } else {
            Some(Ordering::Greater)
        }
    }
}

} // verus!
