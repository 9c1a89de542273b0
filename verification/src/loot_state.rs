//! The state identifiers of the lootable-object machine.

use vstd::prelude::*;

verus! {

/// Identifier of a state of the lootable-object machine.
///
/// `Destroy` is a terminal pseudo-state: it is never entered as a
/// schedulable state, but requesting a transition to it makes the driver
/// tear the machine down instead of performing a normal transition.
#[derive(Debug, Clone, Copy, PartialEq, Eq, Structural, Hash)]
pub enum LootState {
    Idle,
    Hover,
    Inspect,
    Destroy,
}

} // verus!
