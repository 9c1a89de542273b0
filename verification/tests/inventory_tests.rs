use loot_core::context::{remove_item_uuid_from_menu, LootOptionListenerError};
use loot_core::inventory::{
    Inventory, InventoryError, InventoryItem, InventorySlot, ItemCategory, ItemInfo,
};
use loot_core::items::{LootAll, TestItem};

fn item(name: &str, uuid: &str, max: i32) -> ItemInfo {
    ItemInfo {
        name: name.to_string(),
        category: ItemCategory::Loot,
        max_stack_size: max,
        icon: String::new(),
        uuid: uuid.to_string(),
    }
}

fn stack(name: &str, uuid: &str, max: i32, count: i32) -> InventorySlot {
    InventorySlot::new(Some(item(name, uuid, max)), count)
}

fn counts(inv: &Inventory) -> Vec<i32> {
    let mut out = Vec::new();
    let mut i = 0;
    while i < inv.len() {
        out.push(inv.slot_at(i).count);
        i += 1;
    }
    out
}

fn total_of(inv: &Inventory, name: &str) -> i64 {
    let mut total: i64 = 0;
    let mut i = 0;
    while i < inv.len() {
        let slot = inv.slot_at(i);
        if let Some(it) = &slot.item {
            if it.name == name {
                total += slot.count as i64;
            }
        }
        i += 1;
    }
    total
}

#[test]
fn fresh_inventory_has_fifty_empty_slots() {
    let inv = Inventory::new();
    assert_eq!(inv.len(), 50);
    let mut i = 0;
    while i < inv.len() {
        assert!(inv.slot_at(i).item.is_none());
        assert_eq!(inv.slot_at(i).count, 0);
        i += 1;
    }
}

#[test]
fn add_fills_an_empty_slot() {
    let mut inv = Inventory::new();
    let mut incoming = stack("Apple", "u-apple", 10, 4);
    let r = inv.add(&mut incoming);
    assert_eq!(r, Ok(true));
    assert_eq!(incoming.count, 0);
    assert_eq!(inv.slot_at(0).count, 4);
    assert_eq!(inv.slot_at(0).item.as_ref().unwrap().name, "Apple");
    assert_eq!(total_of(&inv, "Apple"), 4);
}

#[test]
fn smallest_stack_fills_first() {
    // two existing stacks of the same item, counts 3 and 7 (max 10);
    // adding 5 must fill the 3-stack to 8 and leave the 7-stack alone —
    // not 3 and 12
    let slots = vec![
        stack("Ore", "u-ore-1", 10, 3),
        stack("Ore", "u-ore-2", 10, 7),
    ];
    let mut inv = Inventory::from_slots(slots);
    let mut incoming = stack("Ore", "u-ore-3", 10, 5);
    let r = inv.add(&mut incoming);
    assert_eq!(r, Ok(true));
    assert_eq!(incoming.count, 0);
    assert_eq!(counts(&inv), vec![8, 7]);
}

#[test]
fn incoming_count_spans_multiple_slots() {
    let mut inv = Inventory::new();
    let mut incoming = stack("Plank", "u-plank", 10, 25);
    let r = inv.add(&mut incoming);
    assert_eq!(r, Ok(true));
    assert_eq!(incoming.count, 0);
    assert_eq!(inv.slot_at(0).count, 10);
    assert_eq!(inv.slot_at(1).count, 10);
    assert_eq!(inv.slot_at(2).count, 5);
    assert_eq!(total_of(&inv, "Plank"), 25);
}

#[test]
fn conservation_over_a_sequence_of_adds() {
    // total looted count always equals what the slots hold plus leftover
    let mut inv = Inventory::from_slots(vec![
        stack("Gem", "u-gem-1", 4, 2),
        InventorySlot::default(),
        stack("Rock", "u-rock", 9, 9),
    ]);
    let mut poured: i64 = 0;
    let mut leftover: i64 = 0;
    for n in [3, 5, 1] {
        let mut incoming = stack("Gem", "u-gem-in", 4, n);
        let _ = inv.add(&mut incoming).unwrap();
        poured += n as i64;
        leftover += incoming.count as i64;
    }
    assert_eq!(total_of(&inv, "Gem"), 2 + poured - leftover);
    // no slot ever exceeds its item's stacking bound
    let mut i = 0;
    while i < inv.len() {
        let slot = inv.slot_at(i);
        if let Some(it) = &slot.item {
            assert!(slot.count <= it.max_stack_size);
        }
        i += 1;
    }
    // the unrelated stack is untouched
    assert_eq!(total_of(&inv, "Rock"), 9);
}

#[test]
fn full_inventory_reports_leftover_and_mutates_nothing() {
    // every slot at max capacity; an incoming 1 comes straight back
    let slots = vec![
        stack("Coal", "u-coal-1", 10, 10),
        stack("Coal", "u-coal-2", 10, 10),
    ];
    let mut inv = Inventory::from_slots(slots);
    let mut incoming = stack("Coal", "u-coal-3", 10, 1);
    let r = inv.add(&mut incoming);
    assert_eq!(r, Ok(false));
    assert_eq!(incoming.count, 1);
    assert_eq!(counts(&inv), vec![10, 10]);
}

#[test]
fn partial_overflow_keeps_the_remainder() {
    let slots = vec![stack("Herb", "u-herb", 6, 4)];
    let mut inv = Inventory::from_slots(slots);
    let mut incoming = stack("Herb", "u-herb-2", 6, 5);
    let r = inv.add(&mut incoming);
    assert_eq!(r, Ok(false));
    assert_eq!(incoming.count, 3);
    assert_eq!(counts(&inv), vec![6]);
}

#[test]
fn stacks_fill_before_empty_slots() {
    let slots = vec![
        InventorySlot::default(),
        stack("Nail", "u-nail", 10, 8),
    ];
    let mut inv = Inventory::from_slots(slots);
    let mut incoming = stack("Nail", "u-nail-2", 10, 4);
    let r = inv.add(&mut incoming);
    assert_eq!(r, Ok(true));
    // the existing stack tops off first, the empty slot takes the rest
    assert_eq!(counts(&inv), vec![2, 10]);
    assert_eq!(inv.slot_at(0).item.as_ref().unwrap().name, "Nail");
}

#[test]
fn category_does_not_gate_stacking() {
    // an occupied slot of another item is never touched
    let slots = vec![stack("Sword", "u-sword", 1, 1), InventorySlot::default()];
    let mut inv = Inventory::from_slots(slots);
    let mut incoming = stack("Shield", "u-shield", 1, 1);
    let r = inv.add(&mut incoming);
    assert_eq!(r, Ok(true));
    assert_eq!(inv.slot_at(0).item.as_ref().unwrap().name, "Sword");
    assert_eq!(inv.slot_at(1).item.as_ref().unwrap().name, "Shield");
}

#[test]
fn add_with_zero_count_changes_nothing() {
    let mut inv = Inventory::new();
    let mut incoming = stack("Dust", "u-dust", 10, 0);
    let r = inv.add(&mut incoming);
    assert_eq!(r, Ok(true));
    assert_eq!(incoming.count, 0);
    assert!(inv.slot_at(0).item.is_none());
}

#[test]
fn add_without_item_is_rejected() {
    let mut inv = Inventory::new();
    let mut incoming = InventorySlot::new(None, 3);
    let r = inv.add(&mut incoming);
    assert_eq!(r, Err(InventoryError::MissingItem));
    assert_eq!(incoming.count, 3);
    assert!(!InventoryError::MissingItem.message().is_empty());
}

#[test]
fn remove_is_a_deliberate_noop() {
    let mut inv = Inventory::from_slots(vec![stack("Key", "u-key", 5, 2)]);
    inv.remove(item("Key", "u-key", 5));
    assert_eq!(counts(&inv), vec![2]);
}

#[test]
fn item_duplicate_preserves_every_field() {
    let original = item("Torch", "u-torch", 20);
    let copy = original.duplicate();
    assert_eq!(copy.name, "Torch");
    assert_eq!(copy.uuid, "u-torch");
    assert_eq!(copy.max_stack_size, 20);
    assert_eq!(copy.get_name(), "Torch");
    assert_eq!(copy.get_uuid(), "u-torch");
    assert_eq!(copy.get_max_stack_size(), 20);
    assert!(copy.get_icon().is_empty());
    assert_eq!(copy.get_category(), ItemCategory::Loot);
    let boxed = copy.get_boxed();
    assert_eq!(boxed.name, "Torch");
}

#[test]
fn test_item_mints_fresh_identifiers() {
    let a = TestItem::new();
    let b = TestItem::new();
    assert_eq!(a.get_uuid().len(), 36);
    assert_eq!(b.get_uuid().len(), 36);
    assert_ne!(a.get_uuid(), b.get_uuid());
    assert_eq!(a.get_name(), "This is the Test Item");
    assert_eq!(a.get_max_stack_size(), 10);
    assert_eq!(a.get_category(), ItemCategory::Food);
}

#[test]
fn loot_all_is_a_fixed_pseudo_item() {
    let all = LootAll::new();
    assert_eq!(LootAll::name(), "Loot All");
    assert_eq!(all.get_name(), "Loot All");
    assert_eq!(all.get_uuid(), "1");
    assert_eq!(all.get_max_stack_size(), 1);
    let boxed = all.get_boxed();
    assert_eq!(boxed.uuid, "1");
}

#[test]
fn remove_by_uuid_takes_the_first_match() {
    let mut slots = vec![
        stack("A", "u-1", 10, 1),
        stack("B", "u-2", 10, 2),
        stack("B", "u-2", 10, 3),
    ];
    let r = remove_item_uuid_from_menu(&"u-2".to_string(), &mut slots);
    assert_eq!(r, Ok(()));
    assert_eq!(slots.len(), 2);
    assert_eq!(slots[0].item.as_ref().unwrap().uuid, "u-1");
    assert_eq!(slots[1].count, 3);
}

#[test]
fn remove_by_uuid_reports_an_unknown_identifier() {
    let mut slots = vec![stack("A", "u-1", 10, 1)];
    let r = remove_item_uuid_from_menu(&"u-9".to_string(), &mut slots);
    assert_eq!(r, Err(LootOptionListenerError::MissingLootedIndex));
    assert_eq!(slots.len(), 1);
    assert!(!LootOptionListenerError::MissingLootedIndex.message().is_empty());
}

#[test]
fn remove_by_uuid_reports_an_itemless_entry() {
    let mut slots = vec![InventorySlot::default(), stack("A", "u-1", 10, 1)];
    let r = remove_item_uuid_from_menu(&"u-1".to_string(), &mut slots);
    assert_eq!(r, Err(LootOptionListenerError::MissingLootItem));
    assert_eq!(slots.len(), 2);
    assert!(!LootOptionListenerError::MissingLootItem.message().is_empty());
}
