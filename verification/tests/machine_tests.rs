use loot_core::bridges::{
    HoverListener, IdleListener, InspectError, InspectListener, LootMenuHoverStateError,
    LootMenuIdleStateError,
};
use loot_core::cells::{CellArena, CellError};
use loot_core::context::{LootContext, LootMachineError, LootOptionListenerError};
use loot_core::events::{HostAction, InputEvent, LifecycleRecord};
use loot_core::inventory::{Inventory, InventorySlot, ItemCategory, ItemInfo};
use loot_core::loot_state::LootState;
use loot_core::machine::{LootMachine, StateTable};
use loot_core::state::Shared;
use loot_core::states::hover::Hover;
use loot_core::states::idle::Idle;
use loot_core::states::inspect::Inspect;

fn item(name: &str, uuid: &str, max: i32) -> ItemInfo {
    ItemInfo {
        name: name.to_string(),
        category: ItemCategory::Loot,
        max_stack_size: max,
        icon: String::new(),
        uuid: uuid.to_string(),
    }
}

fn stack(name: &str, uuid: &str, max: i32, count: i32) -> InventorySlot {
    InventorySlot::new(Some(item(name, uuid, max)), count)
}

/// A loot source with two slots (ItemA x2, ItemB x5) and collider 7.
fn two_slot_machine() -> LootMachine {
    let slots = vec![
        stack("ItemA", "uuid-a", 10, 2),
        stack("ItemB", "uuid-b", 10, 5),
    ];
    LootMachine::start(LootContext::new(slots, Inventory::new(), 7))
}

fn drive_to_inspect(m: &mut LootMachine) {
    m.pointer_entered();
    m.process(16);
    assert_eq!(m.get_current_state(), LootState::Hover);
    m.pointer_released();
    m.process(16);
    assert_eq!(m.get_current_state(), LootState::Inspect);
    // the next update tick builds the menu
    m.process(16);
}

fn create_menu_rows(actions: &[HostAction]) -> Option<(u64, Vec<(String, i32, String)>, bool)> {
    for a in actions {
        if let HostAction::CreateMenu { menu, rows, allow_take_all } = a {
            let summary = rows
                .iter()
                .map(|r| (r.name.clone(), r.count, r.id.clone()))
                .collect();
            return Some((*menu, summary, *allow_take_all));
        }
    }
    None
}

#[test]
fn machine_starts_in_idle() {
    let m = two_slot_machine();
    assert_eq!(m.get_current_state(), LootState::Idle);
    assert!(!m.get_transitioning());
    assert!(!m.destroyed);
    assert_eq!(m.remaining_loot_count(), Ok(2));
    assert_eq!(
        m.log,
        vec![
            LifecycleRecord::Exited(LootState::Idle),
            LifecycleRecord::Entered(LootState::Idle),
        ]
    );
}

#[test]
fn same_state_request_is_a_noop() {
    // after start, the idle state's recorded request points at Idle
    // itself; a tick must fire no exit/enter pair
    let mut m = two_slot_machine();
    let log_before = m.log.clone();
    m.process(16);
    m.physics_process(16);
    assert_eq!(m.log, log_before);
    assert_eq!(m.get_current_state(), LootState::Idle);
}

#[test]
fn transition_logs_exit_strictly_before_enter() {
    let mut m = two_slot_machine();
    m.pointer_entered();
    // the machine still reports Idle until the tick performs the switch
    assert_eq!(m.get_current_state(), LootState::Idle);
    m.process(16);
    assert_eq!(m.get_current_state(), LootState::Hover);
    assert_eq!(
        m.log,
        vec![
            LifecycleRecord::Exited(LootState::Idle),
            LifecycleRecord::Entered(LootState::Idle),
            LifecycleRecord::Exited(LootState::Idle),
            LifecycleRecord::Entered(LootState::Hover),
        ]
    );
}

#[test]
fn a_tick_transitions_or_updates_never_both() {
    let mut m = two_slot_machine();
    // a click delivered while the hover state is not yet active is inert
    m.pointer_released();
    m.pointer_entered();
    m.process(16);
    assert_eq!(m.get_current_state(), LootState::Hover);
    m.pointer_released();
    // the tick that performs the transition into Inspect does not also
    // run the new state's update: the menu appears only on the next tick
    m.process(16);
    assert_eq!(m.get_current_state(), LootState::Inspect);
    assert!(create_menu_rows(&m.take_actions()).is_none());
    m.process(16);
    assert!(create_menu_rows(&m.take_actions()).is_some());
}

#[test]
fn pointer_exit_while_hovering_returns_to_idle() {
    let mut m = two_slot_machine();
    m.pointer_entered();
    m.process(16);
    assert_eq!(m.get_current_state(), LootState::Hover);
    m.pointer_exited();
    m.process(16);
    assert_eq!(m.get_current_state(), LootState::Idle);
}

#[test]
fn stale_pointer_exit_is_inert() {
    // once the hover state has exited, its active flag is cleared and a
    // late pointer-exit callback records no transition request
    let mut m = two_slot_machine();
    drive_to_inspect(&mut m);
    let hover_cell_before = m.shared.cells.sets[1];
    assert!(!hover_cell_before.active);
    m.pointer_exited();
    assert_eq!(m.shared.cells.sets[1].next_state, hover_cell_before.next_state);
    m.process(16);
    assert_eq!(m.get_current_state(), LootState::Inspect);
}

#[test]
fn inspect_builds_a_menu_from_the_remaining_loot() {
    let mut m = two_slot_machine();
    drive_to_inspect(&mut m);
    let actions = m.take_actions();
    let (_, rows, allow_take_all) = create_menu_rows(&actions).expect("a menu should be built");
    assert_eq!(rows.len(), 2);
    assert_eq!(rows[0], ("ItemA".to_string(), 2, "uuid-a".to_string()));
    assert_eq!(rows[1], ("ItemB".to_string(), 5, "uuid-b".to_string()));
    // more than one slot remains, so the aggregate row is offered
    assert!(allow_take_all);
}

#[test]
fn physics_tick_reanchors_an_open_menu() {
    let mut m = two_slot_machine();
    drive_to_inspect(&mut m);
    let actions = m.take_actions();
    let (menu, _, _) = create_menu_rows(&actions).unwrap();
    m.physics_process(16);
    let actions = m.take_actions();
    assert!(actions.iter().any(|a| matches!(a, HostAction::RepositionMenu { menu: mm } if *mm == menu)));
}

#[test]
fn click_outside_dismisses_the_menu() {
    let mut m = two_slot_machine();
    drive_to_inspect(&mut m);
    let (menu, _, _) = create_menu_rows(&m.take_actions()).unwrap();
    // the pointer is over neither the menu nor the collider
    m.menu_hover_changed(false);
    m.input(InputEvent::MouseButton { released: true });
    let actions = m.take_actions();
    assert!(actions.iter().any(|a| matches!(a, HostAction::CloseMenu { menu: mm } if *mm == menu)));
    m.process(16);
    assert_eq!(m.get_current_state(), LootState::Idle);
}

#[test]
fn click_while_over_the_menu_does_not_dismiss() {
    let mut m = two_slot_machine();
    drive_to_inspect(&mut m);
    let _ = m.take_actions();
    m.menu_hover_changed(true);
    m.input(InputEvent::MouseButton { released: true });
    let actions = m.take_actions();
    assert!(actions.iter().all(|a| !matches!(a, HostAction::CloseMenu { .. })));
    m.process(16);
    assert_eq!(m.get_current_state(), LootState::Inspect);
}

#[test]
fn end_to_end_loot_flow() {
    let mut m = two_slot_machine();
    drive_to_inspect(&mut m);
    let (_, rows, allow_take_all) = create_menu_rows(&m.take_actions()).unwrap();
    assert_eq!(rows.len(), 2);
    assert!(allow_take_all);

    // taking ItemA leaves one slot and requests Idle, not Destroy
    assert_eq!(m.option_activated(&"uuid-a".to_string()), Ok(()));
    assert_eq!(m.remaining_loot_count(), Ok(1));
    let actions = m.take_actions();
    assert!(actions.iter().any(|a| matches!(a, HostAction::CloseMenu { .. })));
    assert!(actions.iter().all(|a| !matches!(a, HostAction::FreeCollider { .. })));
    m.process(16);
    assert_eq!(m.get_current_state(), LootState::Idle);

    // hover and inspect again: the menu now lists only ItemB
    drive_to_inspect(&mut m);
    let (_, rows, allow_take_all) = create_menu_rows(&m.take_actions()).unwrap();
    assert_eq!(rows.len(), 1);
    assert_eq!(rows[0], ("ItemB".to_string(), 5, "uuid-b".to_string()));
    assert!(!allow_take_all);

    // taking the last slot empties the source: the collider is freed
    // and the terminal Destroy state is requested
    assert_eq!(m.option_activated(&"uuid-b".to_string()), Ok(()));
    assert_eq!(m.remaining_loot_count(), Ok(0));
    let actions = m.take_actions();
    assert!(actions.iter().any(|a| matches!(a, HostAction::FreeCollider { collider: 7 })));
    m.process(16);

    // the machine tore down all states and the context
    assert!(m.destroyed);
    assert_eq!(m.remaining_loot_count(), Err(LootMachineError::Context));
    assert!(!LootMachineError::Context.message().is_empty());
    let actions = m.take_actions();
    let mut released: Option<Inventory> = None;
    let mut freed_machine = false;
    for a in actions {
        match a {
            HostAction::ReleaseInventory { inventory } => released = Some(inventory),
            HostAction::FreeMachine => freed_machine = true,
            _ => {},
        }
    }
    assert!(freed_machine);
    // conservation: everything looted ended up in the released inventory
    let inv = released.expect("the inventory must be handed back");
    let mut total_a: i32 = 0;
    let mut total_b: i32 = 0;
    let mut i = 0;
    while i < inv.len() {
        if let Some(it) = &inv.slot_at(i).item {
            if it.name == "ItemA" {
                total_a += inv.slot_at(i).count;
            }
            if it.name == "ItemB" {
                total_b += inv.slot_at(i).count;
            }
        }
        i += 1;
    }
    assert_eq!(total_a, 2);
    assert_eq!(total_b, 5);

    // a destroyed machine ignores everything
    m.pointer_entered();
    m.process(16);
    m.physics_process(16);
    m.input(InputEvent::MouseButton { released: true });
    assert!(m.take_actions().is_empty());
}

#[test]
fn missing_state_makes_a_transition_a_noop() {
    let mut m = two_slot_machine();
    // drop the hover state object, as happens transiently during teardown
    m.states.hover = None;
    let log_before = m.log.clone();
    m.transition_to_state(LootState::Hover);
    // the exit half ran, the enter half could not; the guard is released
    assert!(!m.get_transitioning());
    assert_eq!(m.get_current_state(), LootState::Hover);
    assert_eq!(m.log.len(), log_before.len() + 1);
    // a tick with a missing current state does nothing and is never fatal
    let log_before = m.log.clone();
    m.process(16);
    m.physics_process(16);
    assert_eq!(m.log, log_before);
    assert_eq!(m.get_current_state(), LootState::Hover);
}

#[test]
fn destroy_target_tears_down_instead_of_entering() {
    let mut m = two_slot_machine();
    m.transition_to_state(LootState::Destroy);
    assert!(m.destroyed);
    // the collider was still held, so teardown frees it, and the
    // inventory comes home before the machine's own representation goes
    let actions = m.take_actions();
    assert!(actions.iter().any(|a| matches!(a, HostAction::FreeCollider { collider: 7 })));
    assert!(actions.iter().any(|a| matches!(a, HostAction::ReleaseInventory { .. })));
    assert!(matches!(actions.last(), Some(HostAction::FreeMachine)));
    // the log records the exit; the pseudo-state is never entered
    assert_eq!(m.log.last(), Some(&LifecycleRecord::Exited(LootState::Idle)));
}

#[test]
fn unknown_row_identifier_is_reported() {
    let mut m = two_slot_machine();
    drive_to_inspect(&mut m);
    let _ = m.take_actions();
    let r = m.option_activated(&"uuid-nope".to_string());
    assert_eq!(r, Err(LootOptionListenerError::MissingLootedIndex));
    assert_eq!(m.remaining_loot_count(), Ok(2));
    assert_eq!(m.get_current_state(), LootState::Inspect);
}

#[test]
fn take_all_row_grants_nothing() {
    // the aggregate row carries the pseudo-item's identifier, which no
    // remaining entry uses
    let mut m = two_slot_machine();
    drive_to_inspect(&mut m);
    let _ = m.take_actions();
    let r = m.option_activated(&"1".to_string());
    assert_eq!(r, Err(LootOptionListenerError::MissingLootedIndex));
    assert_eq!(m.remaining_loot_count(), Ok(2));
}

#[test]
fn stale_option_activation_is_ignored() {
    let mut m = two_slot_machine();
    drive_to_inspect(&mut m);
    let _ = m.take_actions();
    // dismiss the menu first
    m.menu_hover_changed(false);
    m.input(InputEvent::MouseButton { released: true });
    let _ = m.take_actions();
    // a late row activation changes nothing
    assert_eq!(m.option_activated(&"uuid-a".to_string()), Ok(()));
    assert_eq!(m.remaining_loot_count(), Ok(2));
    assert!(m.take_actions().is_empty());
}

#[test]
fn overflowing_loot_keeps_the_leftover_listed() {
    // the target inventory has room for only 3 of the 5 ItemB
    let slots = vec![stack("ItemB", "uuid-b", 10, 5)];
    let target = Inventory::from_slots(vec![stack("ItemB", "uuid-t", 10, 7)]);
    let mut m = LootMachine::start(LootContext::new(slots, target, 9));
    drive_to_inspect(&mut m);
    let _ = m.take_actions();
    assert_eq!(m.option_activated(&"uuid-b".to_string()), Ok(()));
    // the entry stays, reduced to the leftover, so no Destroy is due
    assert_eq!(m.remaining_loot_count(), Ok(1));
    assert_eq!(m.shared.context.loot_slots[0].count, 2);
    m.process(16);
    assert_eq!(m.get_current_state(), LootState::Idle);
    assert!(!m.destroyed);
}

#[test]
fn cell_arena_fails_softly_on_stale_handles() {
    let mut arena = CellArena::new();
    assert!(arena.try_read(0).is_err());
    let h = arena.allocate();
    assert_eq!(h, 0);
    assert!(arena.try_read(h).is_ok());
    assert_eq!(arena.try_set_next(3, Some(LootState::Hover)), Err(CellError::Unavailable));
    arena.release(h);
    assert_eq!(arena.try_read(h).unwrap_err(), CellError::Unavailable);
    assert!(arena.try_set_active(h, true).is_err());
    assert!(arena.try_set_menu(h, Some(1)).is_err());
    assert!(arena.try_set_hovering(h, true).is_err());
    assert!(arena.try_set_trigger(h, true).is_err());
    assert!(!CellError::Unavailable.message().is_empty());
}

#[test]
fn idle_listener_needs_its_cells() {
    let mut arena = CellArena::new();
    let listener = IdleListener { cells: 0 };
    assert_eq!(
        listener.mouse_entered(&mut arena),
        Err(LootMenuIdleStateError::ActiveFlag)
    );
    assert!(!LootMenuIdleStateError::ActiveFlag.message().is_empty());
    // an inactive idle state swallows the callback
    let h = arena.allocate();
    let listener = IdleListener { cells: h };
    assert_eq!(listener.mouse_entered(&mut arena), Ok(()));
    assert_eq!(arena.sets[h].next_state, None);
    // an active one requests Hover
    let _ = arena.try_set_active(h, true);
    assert_eq!(listener.mouse_entered(&mut arena), Ok(()));
    assert_eq!(arena.sets[h].next_state, Some(LootState::Hover));
}

#[test]
fn hover_listener_filters_events_and_needs_its_cells() {
    let mut arena = CellArena::new();
    let listener = HoverListener { cells: 5 };
    assert_eq!(
        listener.mouse_exited(&mut arena),
        Err(LootMenuHoverStateError::ActiveFlag)
    );
    assert!(!LootMenuHoverStateError::ActiveFlag.message().is_empty());
    let h = arena.allocate();
    let listener = HoverListener { cells: h };
    let _ = arena.try_set_active(h, true);
    // a pressed button or another event does nothing
    assert_eq!(
        listener.input_event(&mut arena, InputEvent::MouseButton { released: false }),
        Ok(())
    );
    assert_eq!(listener.input_event(&mut arena, InputEvent::Other), Ok(()));
    assert_eq!(arena.sets[h].next_state, None);
    // a released button requests Inspect
    assert_eq!(
        listener.input_event(&mut arena, InputEvent::MouseButton { released: true }),
        Ok(())
    );
    assert_eq!(arena.sets[h].next_state, Some(LootState::Inspect));
    // pointer exit requests Idle while active
    assert_eq!(listener.mouse_exited(&mut arena), Ok(()));
    assert_eq!(arena.sets[h].next_state, Some(LootState::Idle));
}

#[test]
fn inspect_listener_tracks_hover_and_closes_menus() {
    let mut arena = CellArena::new();
    let listener = InspectListener { cells: 2 };
    assert_eq!(listener.mouse_entered(&mut arena), Err(InspectError::HoveringFlag));
    assert!(!InspectError::HoveringFlag.message().is_empty());
    let h = arena.allocate();
    let listener = InspectListener { cells: h };
    assert_eq!(listener.mouse_entered(&mut arena), Ok(()));
    assert!(arena.sets[h].pointer_hovering);
    assert!(arena.sets[h].menu_create_requested);
    assert_eq!(listener.mouse_exited(&mut arena), Ok(()));
    assert!(!arena.sets[h].pointer_hovering);
    // no menu open: the click report is a defect, not a panic
    assert_eq!(
        listener.option_clicked(&mut arena, false),
        Err(InspectError::MenuShouldNotBeNone)
    );
    assert!(!InspectError::MenuShouldNotBeNone.message().is_empty());
    // with a menu open the flow closes it and requests the next state
    let _ = arena.try_set_menu(h, Some(4));
    let _ = arena.try_set_active(h, true);
    assert_eq!(listener.option_clicked(&mut arena, true), Ok(4));
    assert!(!arena.sets[h].active);
    assert_eq!(arena.sets[h].menu, None);
    assert_eq!(arena.sets[h].next_state, Some(LootState::Destroy));
    arena.release(h);
    assert_eq!(listener.option_clicked(&mut arena, false), Err(InspectError::ActiveFlag));
    assert!(!InspectError::ActiveFlag.message().is_empty());
}

#[test]
fn activation_without_an_inventory_is_reported() {
    // a context whose inventory is already gone refuses the loot flow
    let mut cells = CellArena::new();
    let h0 = cells.allocate();
    let h1 = cells.allocate();
    let h2 = cells.allocate();
    let _ = cells.try_set_menu(h2, Some(0));
    let context = LootContext {
        loot_slots: vec![stack("ItemA", "uuid-a", 10, 1)],
        inventory: None,
        collider: None,
        destroyed: true,
    };
    let shared = Shared { cells, context, actions: Vec::new(), next_menu_id: 1 };
    let states = StateTable {
        idle: Some(Idle::new(h0)),
        hover: Some(Hover::new(h1)),
        inspect: Some(Inspect::new(h2)),
    };
    let mut m = LootMachine {
        states,
        current_state: LootState::Inspect,
        transitioning: false,
        shared,
        log: Vec::new(),
        destroyed: false,
    };
    let r = m.option_activated(&"uuid-a".to_string());
    assert_eq!(r, Err(LootOptionListenerError::InventoryBorrow));
    assert!(!LootOptionListenerError::InventoryBorrow.message().is_empty());
    assert!(!LootOptionListenerError::AddToInventory.message().is_empty());
}
