//! Plain events and actions exchanged with the embedding layer.
//!
//! The machine consumes pointer and tick events and produces
//! [`HostAction`] values; the embedding layer performs them against the
//! real scene objects. This keeps every decision inside the verified
//! core while all engine calls stay outside it.

use vstd::prelude::*;

use crate::inventory::Inventory;
use crate::loot_state::LootState;

verus! {

/// An input event forwarded to the machine's input dispatch.
#[derive(Debug, Clone, Copy, PartialEq, Eq, Structural)]
pub enum InputEvent {
    /// A mouse button changed state; `released` is true on release.
    MouseButton { released: bool },
    /// Any other input; every state ignores it.
    Other,
}

/// One row of the loot menu: what the menu collaborator needs to render
/// it, plus the unique identifier it reports back on activation.
#[derive(Debug)]
pub struct MenuRow {
    pub name: String,
    pub count: i32,
    pub icon: String,
    pub id: String,
}

/// Spec-level value of a [`MenuRow`].
pub struct RowModel {
    pub name: Seq<char>,
    pub count: int,
    pub icon: Seq<char>,
    pub id: Seq<char>,
}

impl View for MenuRow {
    type V = RowModel;

    open spec fn view(&self) -> RowModel {
        RowModel { name: self.name@, count: self.count as int, icon: self.icon@, id: self.id@ }
    }
}

/// A host-side effect the machine requests. The embedding layer drains
/// these after every call into the machine and performs them in order.
#[derive(Debug)]
pub enum HostAction {
    /// Build and show a menu with the given rows, one per remaining loot
    /// slot, plus an aggregate "take all" row when `allow_take_all` is
    /// set. The host should anchor the menu off screen until it is fully
    /// populated and positioned, then reveal it.
    CreateMenu { menu: u64, rows: Vec<MenuRow>, allow_take_all: bool },
    /// Re-project the collider's world position through the active
    /// camera and move the menu to the resulting screen position.
    RepositionMenu { menu: u64 },
    /// Close and free the menu.
    CloseMenu { menu: u64 },
    /// Free the in-world collider object.
    FreeCollider { collider: u64 },
    /// Hand the target inventory back to its owner; emitted while the
    /// machine tears down, so that no stored item is ever lost with it.
    ReleaseInventory { inventory: Inventory },
    /// Free the machine's own host-side representation; the final action.
    FreeMachine,
}

/// One observed lifecycle event of the machine: a state was exited or
/// entered. The driver appends these in the order the hooks run, so the
/// log shows that an exit always precedes the matching enter.
#[derive(Debug, Clone, Copy, PartialEq, Eq, Structural)]
pub enum LifecycleRecord {
    Exited(LootState),
    Entered(LootState),
}

} // verus!
