//! Concrete game items: a sample stackable item and the pseudo-item that
//! labels the "take everything" menu row.

use vstd::prelude::*;

use crate::inventory::{InventoryItem, ItemCategory, ItemInfo, ItemModel};

verus! {

/// Relies on `uuid::Uuid::new_v4` and `ToString`: a freshly generated
/// version-4 identifier rendered in the hyphenated form, which is always
/// 36 characters long. The value itself is random, so nothing more is
/// promised about it.
#[verifier::external_body]
fn fresh_uuid() -> (r: String)
    ensures
        r@.len() == 36,
{
    uuid::Uuid::new_v4().to_string()
}

/// A sample stackable food item, mainly for demo content and tests. Each
/// call to [`TestItem::new`] mints a distinct unique identifier.
#[derive(Debug)]
pub struct TestItem {
    pub uuid: String,
}

impl TestItem {
    pub fn new() -> (r: Self)
        ensures
            r.model().uuid.len() == 36,
            r.model().name == "This is the Test Item"@,
            r.model().category == ItemCategory::Food,
            r.model().max_stack_size == 10,
    {
        TestItem { uuid: fresh_uuid() }
    }
}

impl InventoryItem for TestItem {
    open spec fn model(&self) -> ItemModel {
        ItemModel {
            name: "This is the Test Item"@,
            category: ItemCategory::Food,
            max_stack_size: 10,
            icon: ""@,
            uuid: self.uuid@,
        }
    }

    fn get_name(&self) -> (r: String) {
        "This is the Test Item".to_string()
    }

    fn get_category(&self) -> (r: ItemCategory) {
        ItemCategory::Food
    }

    fn get_max_stack_size(&self) -> (r: i32) {
        10
    }

    fn get_icon(&self) -> (r: String) {
        "".to_string()
    }

    fn get_uuid(&self) -> (r: String) {
        self.uuid.clone()
    }

    fn get_boxed(&self) -> (r: ItemInfo) {
        ItemInfo {
            name: "This is the Test Item".to_string(),
            category: ItemCategory::Food,
            max_stack_size: 10,
            icon: "".to_string(),
            uuid: self.uuid.clone(),
        }
    }
}

/// The pseudo-item behind the aggregate "take everything" menu row. It
/// is never granted itself; it only labels that row, so it carries a
/// fixed identifier that no real loot entry uses.
#[derive(Debug)]
pub struct LootAll {
    pub uuid: String,
}

impl LootAll {
    pub fn new() -> (r: Self)
        ensures
            r.model().uuid == "1"@,
    {
        LootAll { uuid: "1".to_string() }
    }

    /// The label shown on the aggregate row.
    pub fn name() -> (r: String)
        ensures
            r@ == "Loot All"@,
    {
        "Loot All".to_string()
    }
}

impl InventoryItem for LootAll {
    open spec fn model(&self) -> ItemModel {
        ItemModel {
            name: "Loot All"@,
            category: ItemCategory::Food,
            max_stack_size: 1,
            icon: ""@,
            uuid: self.uuid@,
        }
    }

    fn get_name(&self) -> (r: String) {
        "Loot All".to_string()
    }

    fn get_category(&self) -> (r: ItemCategory) {
        ItemCategory::Food
    }

    fn get_max_stack_size(&self) -> (r: i32) {
        1
    }

    fn get_icon(&self) -> (r: String) {
        "".to_string()
    }

    fn get_uuid(&self) -> (r: String) {
        self.uuid.clone()
    }

    fn get_boxed(&self) -> (r: ItemInfo) {
        ItemInfo {
            name: "Loot All".to_string(),
            category: ItemCategory::Food,
            max_stack_size: 1,
            icon: "".to_string(),
            uuid: self.uuid.clone(),
        }
    }
}

} // verus!
