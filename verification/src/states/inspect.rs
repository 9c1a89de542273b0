//! The inspect state: a detail menu lists the remaining loot; clicking
//! outside the menu dismisses it, activating a row grants its stack.
//!
//! When a click is both outside the collider's bounds and on a menu row,
//! dismissal wins: the row activation is delivered separately and is
//! ignored once the menu handle has been cleared.

use vstd::prelude::*;

use crate::cells::CellSet;
use crate::context::slot_models;
use crate::events::{HostAction, InputEvent, MenuRow, RowModel};
use crate::inventory::SlotModel;
use crate::loot_state::LootState;
use crate::state::{entered_cells, exited_cells, released_cells, Shared, State};

verus! {

/// The menu rows that describe a remaining-loot list: one row per slot,
/// carrying the item's display name, the stacked count, the icon, and
/// the item's unique identifier.
pub open spec fn spec_menu_rows(slots: Seq<SlotModel>) -> Seq<RowModel> {
    slots.map_values(
        |s: SlotModel|
            RowModel {
                name: s.item->Some_0.name,
                count: s.count,
                icon: s.item->Some_0.icon,
                id: s.item->Some_0.uuid,
            },
    )
}

/// On entry, Inspect flags that a menu should be built; the next update
/// tick builds it from the remaining loot. While a menu exists, every
/// physics tick re-anchors it to the collider's projected position.
#[derive(Debug)]
pub struct Inspect {
    pub cells: usize,
    pub connected: bool,
}

impl Inspect {
    pub fn new(cells: usize) -> (r: Self)
        ensures
            r.cells == cells,
            !r.connected,
    {
        Inspect { cells, connected: false }
    }
}

impl State for Inspect {
    open spec fn state_id(&self) -> LootState {
        LootState::Inspect
    }

    open spec fn handle(&self) -> int {
        self.cells as int
    }

    open spec fn enter_ens(&self, pre: Shared, post_self: Self, post: Shared) -> bool {
        &&& post_self.cells == self.cells
        &&& post_self.connected == (self.connected || pre.context.collider is Some)
        &&& post.context == pre.context
        &&& post.actions == pre.actions
        &&& post.next_menu_id == pre.next_menu_id
        &&& post.cells@ == entered_cells(pre.cells@, self.cells as int, LootState::Inspect)
    }

    open spec fn exit_ens(&self, pre: Shared, post_self: Self, post: Shared) -> bool {
        &&& post_self == *self
        &&& post.context == pre.context
        &&& post.actions == pre.actions
        &&& post.next_menu_id == pre.next_menu_id
        &&& post.cells@ == exited_cells(pre.cells@, self.cells as int, LootState::Inspect)
    }

    open spec fn input_ens(&self, pre: Shared, event: InputEvent, post_self: Self, post: Shared) -> bool {
        let h = self.cells as int;
        &&& post_self == *self
        &&& post.context == pre.context
        &&& post.next_menu_id == pre.next_menu_id
        &&& if pre.cells.live(h) && pre.cells@[h].active && event == (InputEvent::MouseButton {
            released: true,
        }) && !pre.cells@[h].pointer_hovering && pre.cells@[h].menu is Some {
            &&& post.cells@ == pre.cells@.update(
                h,
                CellSet { menu: None, next_state: Some(LootState::Idle), ..pre.cells@[h] },
            )
            &&& post.actions@ == pre.actions@.push(
                HostAction::CloseMenu { menu: pre.cells@[h].menu->Some_0 },
            )
        } else {
            post == pre
        }
    }

    open spec fn process_ens(&self, pre: Shared, post_self: Self, post: Shared) -> bool {
        let h = self.cells as int;
        &&& post_self == *self
        &&& post.context == pre.context
        &&& if !pre.cells.live(h) || !pre.cells@[h].active || pre.cells@[h].menu is Some
            || !pre.cells@[h].menu_create_requested {
            post == pre
        } else if pre.context.collider is None {
            // the request is consumed but no menu can be built; a later
            // pointer-enter sets the flag again
            &&& post.cells@ == pre.cells@.update(
                h,
                CellSet { menu_create_requested: false, ..pre.cells@[h] },
            )
            &&& post.actions == pre.actions
            &&& post.next_menu_id == pre.next_menu_id
        } else {
            &&& post.cells@ == pre.cells@.update(
                h,
                CellSet {
                    menu_create_requested: false,
                    menu: Some(pre.next_menu_id),
                    ..pre.cells@[h]
                },
            )
            &&& post.next_menu_id == if pre.next_menu_id < u64::MAX {
                (pre.next_menu_id + 1) as u64
            } else {
                pre.next_menu_id
            }
            &&& post.actions@.len() == pre.actions@.len() + 1
            &&& post.actions@.take(pre.actions@.len() as int) == pre.actions@
            &&& (post.actions@.last() matches HostAction::CreateMenu { menu, rows, allow_take_all }
                && menu == pre.next_menu_id && allow_take_all == (pre.context.loot_slots@.len()
                > 1) && rows@.map_values(|r: MenuRow| r@) == spec_menu_rows(
                slot_models(pre.context.loot_slots@),
            ))
        }
    }

    open spec fn physics_ens(&self, pre: Shared, post_self: Self, post: Shared) -> bool {
        let h = self.cells as int;
        &&& post_self == *self
        &&& post.context == pre.context
        &&& post.next_menu_id == pre.next_menu_id
        &&& post.cells == pre.cells
        &&& if pre.cells.live(h) && pre.cells@[h].active && pre.cells@[h].menu is Some
            && pre.context.collider is Some {
            post.actions@ == pre.actions@.push(
                HostAction::RepositionMenu { menu: pre.cells@[h].menu->Some_0 },
            )
        } else {
            post.actions == pre.actions
        }
    }

    open spec fn destroy_ens(&self, pre: Shared, post_self: Self, post: Shared) -> bool {
        &&& post_self == *self
        &&& post.context == pre.context
        &&& post.actions == pre.actions
        &&& post.next_menu_id == pre.next_menu_id
        &&& post.cells@ == released_cells(pre.cells@, self.cells as int)
    }

    fn get_state_name(&self) -> (r: LootState) {
        LootState::Inspect
    }

    fn set_next_state(&mut self, sh: &mut Shared, state: LootState) {
        let _ = sh.cells.try_set_next(self.cells, Some(state));
    }

    fn get_next_state(&self, sh: &Shared) -> (r: Option<LootState>) {
        match sh.cells.try_read(self.cells) {
            Ok(c) => c.next_state,
            Err(_) => None,
        }
    }

    fn enter(&mut self, sh: &mut Shared) {
        let ghost pre_cells = sh.cells@;
        let _ = sh.cells.try_set_active(self.cells, true);
        let _ = sh.cells.try_set_trigger(self.cells, true);
        proof {
            assert(sh.cells@ =~= entered_cells(pre_cells, self.cells as int, LootState::Inspect));
        }
        if !self.connected {
            if sh.context.collider.is_some() {
                self.connected = true;
            }
        }
    }

    fn exit(&mut self, sh: &mut Shared) {
        let ghost pre_cells = sh.cells@;
        let _ = sh.cells.try_set_active(self.cells, false);
        let _ = sh.cells.try_set_next(self.cells, Some(LootState::Inspect));
        proof {
            assert(sh.cells@ =~= exited_cells(pre_cells, self.cells as int, LootState::Inspect));
        }
    }

    fn input(&mut self, sh: &mut Shared, event: InputEvent) {
        let cell = match sh.cells.try_read(self.cells) {
            Ok(c) => c,
            Err(_) => {
                return;
            },
        };
        if !cell.active {
            return;
        }
        let released: bool = match event {
            InputEvent::MouseButton { released } => released,
            InputEvent::Other => false,
        };
        if !released {
            return;
        }
        if cell.pointer_hovering {
            return;
        }
        let m: u64 = match cell.menu {
            Some(m) => m,
            None => {
                return;
            },
        };
        let ghost pre_cells = sh.cells@;
        sh.actions.push(HostAction::CloseMenu { menu: m });
        let _ = sh.cells.try_set_menu(self.cells, None);
        let _ = sh.cells.try_set_next(self.cells, Some(LootState::Idle));
        proof {
            assert(sh.cells@ =~= pre_cells.update(
                self.cells as int,
                CellSet { menu: None, next_state: Some(LootState::Idle), ..pre_cells[self.cells as int] },
            ));
        }
    }

    fn process(&mut self, sh: &mut Shared, _dt: u64) {
        let cell = match sh.cells.try_read(self.cells) {
            Ok(c) => c,
            Err(_) => {
                return;
            },
        };
        if !cell.active {
            return;
        }
        if cell.menu.is_some() {
            return;
        }
        if !cell.menu_create_requested {
            return;
        }
        let ghost pre_cells = sh.cells@;
        let _ = sh.cells.try_set_trigger(self.cells, false);
        if sh.context.collider.is_none() {
            return;
        }

        // one row per remaining loot slot
        let m: usize = sh.context.loot_slots.len();
        let mut rows: Vec<MenuRow> = Vec::new();
        let mut i: usize = 0;
        while i < m
            invariant
                sh.context == old(sh).context,
                old(sh).context.wf(),
                m == sh.context.loot_slots@.len(),
                i <= m,
                rows@.len() == i,
                rows@.map_values(|r: MenuRow| r@) =~= spec_menu_rows(
                    slot_models(sh.context.loot_slots@).take(i as int),
                ),
            decreases m - i,
        {
            let slot = &sh.context.loot_slots[i];
            let count: i32 = slot.count;
            let ghost prev_rows = rows@;
            match &slot.item {
                Some(it) => {
                    rows.push(
                        MenuRow {
                            name: it.name.clone(),
                            count,
                            icon: it.icon.clone(),
                            id: it.uuid.clone(),
                        },
                    );
                },
                None => {
                    proof {
                        assert(false);
                    }
                },
            }
            i = i + 1;
            proof {
                let s_all = slot_models(sh.context.loot_slots@);
                let k = i - 1;
                assert(rows@ == prev_rows.push(rows@[k]));
                assert(rows@.map_values(|r: MenuRow| r@)[k] == rows@[k]@);
                assert(s_all[k] == sh.context.loot_slots@[k]@);
                assert(rows@[k]@ == RowModel {
                    name: s_all[k].item->Some_0.name,
                    count: s_all[k].count,
                    icon: s_all[k].item->Some_0.icon,
                    id: s_all[k].item->Some_0.uuid,
                });
                assert(spec_menu_rows(s_all.take(i as int))[k] == rows@[k]@);
                assert forall|j: int| 0 <= j < k implies rows@.map_values(|r: MenuRow| r@)[j]
                    == spec_menu_rows(s_all.take(i as int))[j] by {
                    assert(rows@[j] == prev_rows[j]);
                    assert(prev_rows.map_values(|r: MenuRow| r@)[j] == prev_rows[j]@);
                    assert(spec_menu_rows(s_all.take(k))[j] == prev_rows[j]@);
                    assert(s_all.take(k)[j] == s_all.take(i as int)[j]);
                }
                assert(rows@.map_values(|r: MenuRow| r@) =~= spec_menu_rows(
                    s_all.take(i as int),
                ));
            }
        }
        proof {
            assert(slot_models(sh.context.loot_slots@).take(m as int) =~= slot_models(
                sh.context.loot_slots@,
            ));
        }

        let id: u64 = sh.next_menu_id;
        if sh.next_menu_id < u64::MAX {
            sh.next_menu_id = sh.next_menu_id + 1;
        }
        let _ = sh.cells.try_set_menu(self.cells, Some(id));
        let take_all: bool = m > 1;
        let ghost pre_actions = sh.actions@;
        sh.actions.push(HostAction::CreateMenu { menu: id, rows, allow_take_all: take_all });
        proof {
            assert(sh.cells@ =~= pre_cells.update(
                self.cells as int,
                CellSet {
                    menu_create_requested: false,
                    menu: Some(id),
                    ..pre_cells[self.cells as int]
                },
            ));
            assert(sh.actions@.take(pre_actions.len() as int) =~= pre_actions);
        }
    }

    fn physics_process(&mut self, sh: &mut Shared, _dt: u64) {
        let cell = match sh.cells.try_read(self.cells) {
            Ok(c) => c,
            Err(_) => {
                return;
            },
        };
        if !cell.active {
            return;
        }
        let m: u64 = match cell.menu {
            Some(m) => m,
            None => {
                return;
            },
        };
        if sh.context.collider.is_none() {
            return;
        }
        sh.actions.push(HostAction::RepositionMenu { menu: m });
    }

    fn destroy(&mut self, sh: &mut Shared) {
        sh.cells.release(self.cells);
    }
}

} // verus!
