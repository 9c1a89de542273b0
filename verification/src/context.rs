//! The shared loot context: what a loot source still offers, the
//! inventory it feeds, and the handle of its in-world collider.
//!
//! The machine is the single owner; states and listener bridges reach
//! the context only through the machine. Once destroyed, the context
//! refuses further use instead of panicking.

use vstd::prelude::*;

use crate::inventory::{stack_wf, Inventory, InventorySlot, SlotModel};

verus! {

/// Error of machine-level operations.
#[derive(Debug, Clone, Copy, PartialEq, Eq, Structural)]
pub enum LootMachineError {
    /// The shared context could not be used: it was already destroyed.
    Context,
}

impl LootMachineError {
    /// A short description, for the embedding layer's logs.
    pub fn message(&self) -> (r: String) {
        match self {
            LootMachineError::Context => "the context could not be used".to_string(),
        }
    }
}

/// Error of the loot-flow operations that react to a menu row click.
#[derive(Debug, Clone, Copy, PartialEq, Eq, Structural)]
pub enum LootOptionListenerError {
    /// The target inventory was not available.
    InventoryBorrow,
    /// The incoming slot could not be merged (it carried no item).
    AddToInventory,
    /// A remaining-loot entry without an item was encountered.
    MissingLootItem,
    /// No remaining-loot entry carries the requested identifier.
    MissingLootedIndex,
}

impl LootOptionListenerError {
    /// A short description, for the embedding layer's logs.
    pub fn message(&self) -> (r: String) {
        match self {
            LootOptionListenerError::InventoryBorrow => "error using the inventory".to_string(),
            LootOptionListenerError::AddToInventory => "error adding item to inventory".to_string(),
            LootOptionListenerError::MissingLootItem => "loot slots was missing an item".to_string(),
            LootOptionListenerError::MissingLootedIndex => "looted item was not found in loot slots".to_string(),
        }
    }
}

/// The shared record behind one loot source: the remaining lootable
/// slots, the target inventory, and the in-world collider's handle.
/// Once `destroy` ran, the record is inert: `destroyed` is set, and the
/// machine's fail-soft accessors refuse it.
#[derive(Debug)]
pub struct LootContext {
    pub loot_slots: Vec<InventorySlot>,
    pub inventory: Option<Inventory>,
    pub collider: Option<u64>,
    pub destroyed: bool,
}

impl LootContext {
    /// Every remaining slot offers an item with a nonnegative count and
    /// stacking bound, and a live context still holds an inventory.
    pub open spec fn wf(self) -> bool {
        &&& forall|i: int|
            0 <= i < self.loot_slots@.len() ==> stack_wf((#[trigger] self.loot_slots@[i])@)
        &&& self.inventory matches Some(inv) ==> inv.wf()
        &&& !self.destroyed ==> self.inventory is Some
    }

    /// Bind a freshly spawned loot source: its remaining slots, the
    /// inventory that looting fills, and the collider's handle.
    pub fn new(loot_slots: Vec<InventorySlot>, inventory: Inventory, collider: u64) -> (r: Self)
        requires
            forall|i: int| 0 <= i < loot_slots@.len() ==> stack_wf((#[trigger] loot_slots@[i])@),
            inventory.wf(),
        ensures
            r.wf(),
            !r.destroyed,
            r.loot_slots == loot_slots,
            r.inventory == Some(inventory),
            r.collider == Some(collider),
    {
        LootContext { loot_slots, inventory: Some(inventory), collider: Some(collider), destroyed: false }
    }
}

/// Spec-level view of the remaining-loot list.
pub open spec fn slot_models(slots: Seq<InventorySlot>) -> Seq<SlotModel> {
    slots.map_values(|s: InventorySlot| s@)
}

/// Remove the remaining-loot entry whose item carries this unique
/// identifier. The entries are scanned in storage order; a slot without
/// an item stops the scan as a defect, and an identifier that matches no
/// entry is reported. On success exactly the first matching entry is
/// gone and the others keep their order.
pub fn remove_item_uuid_from_menu(uuid: &String, loot_slots: &mut Vec<InventorySlot>) -> (r:
    Result<(), LootOptionListenerError>)
    ensures
        match r {
            Result::Ok(()) => exists|i: int|
                {
                    &&& 0 <= i < old(loot_slots)@.len()
                    &&& (#[trigger] old(loot_slots)@[i])@.item matches Some(it) && it.uuid == uuid@
                    &&& forall|j: int|
                        0 <= j < i ==> ((#[trigger] old(loot_slots)@[j])@.item matches Some(it2)
                            && it2.uuid != uuid@)
                    &&& final(loot_slots)@ == old(loot_slots)@.remove(i)
                },
            Result::Err(e) => *final(loot_slots) == *old(loot_slots) && match e {
                LootOptionListenerError::MissingLootItem => exists|i: int|
                    {
                        &&& 0 <= i < old(loot_slots)@.len()
                        &&& (#[trigger] old(loot_slots)@[i])@.item is None
                        &&& forall|j: int|
                            0 <= j < i ==> ((#[trigger] old(loot_slots)@[j])@.item matches Some(
                                it2,
                            ) && it2.uuid != uuid@)
                    },
                LootOptionListenerError::MissingLootedIndex => forall|j: int|
                    0 <= j < old(loot_slots)@.len() ==> ((#[trigger] old(
                        loot_slots,
                    )@[j])@.item matches Some(it2) && it2.uuid != uuid@),
                _ => false,
            },
        },
{
    let n: usize = loot_slots.len();
    let mut index: usize = 0;
    while index < n
        invariant
            n == loot_slots@.len(),
            *loot_slots == *old(loot_slots),
            index <= n,
            forall|j: int|
                0 <= j < index ==> ((#[trigger] loot_slots@[j])@.item matches Some(it2)
                    && it2.uuid != uuid@),
        decreases n - index,
    {
        let found: bool = match &loot_slots[index].item {
            Some(it) => it.uuid == *uuid,
            None => {
                return Err(LootOptionListenerError::MissingLootItem);
            },
        };
        if found {
            loot_slots.remove(index);
            return Ok(());
        }
        index = index + 1;
    }
    Err(LootOptionListenerError::MissingLootedIndex)
}

} // verus!
