//! The idle state: the loot source waits for the pointer to find it.

use vstd::prelude::*;

use crate::events::InputEvent;
use crate::loot_state::LootState;
use crate::state::{entered_cells, exited_cells, released_cells, Shared, State};

verus! {

/// Idle is the initial state. On its first entry it subscribes a
/// pointer-enter listener against the context's collider; the host has
/// no unsubscribe primitive, so the subscription stays for the object's
/// lifetime and the cell set's active flag decides whether a delivered
/// callback has any effect.
#[derive(Debug)]
pub struct Idle {
    pub cells: usize,
    pub connected: bool,
}

impl Idle {
    pub fn new(cells: usize) -> (r: Self)
        ensures
            r.cells == cells,
            !r.connected,
    {
        Idle { cells, connected: false }
    }
}

impl State for Idle {
    open spec fn state_id(&self) -> LootState {
        LootState::Idle
    }

    open spec fn handle(&self) -> int {
        self.cells as int
    }

    open spec fn enter_ens(&self, pre: Shared, post_self: Self, post: Shared) -> bool {
        &&& post_self.cells == self.cells
        &&& post_self.connected == (self.connected || pre.context.collider is Some)
        &&& post.context == pre.context
        &&& post.actions == pre.actions
        &&& post.next_menu_id == pre.next_menu_id
        &&& post.cells@ == entered_cells(pre.cells@, self.cells as int, LootState::Idle)
    }

    open spec fn exit_ens(&self, pre: Shared, post_self: Self, post: Shared) -> bool {
        &&& post_self == *self
        &&& post.context == pre.context
        &&& post.actions == pre.actions
        &&& post.next_menu_id == pre.next_menu_id
        &&& post.cells@ == exited_cells(pre.cells@, self.cells as int, LootState::Idle)
    }

    open spec fn input_ens(&self, pre: Shared, event: InputEvent, post_self: Self, post: Shared) -> bool {
        post_self == *self && post == pre
    }

    open spec fn process_ens(&self, pre: Shared, post_self: Self, post: Shared) -> bool {
        post_self == *self && post == pre
    }

    open spec fn physics_ens(&self, pre: Shared, post_self: Self, post: Shared) -> bool {
        post_self == *self && post == pre
    }

    open spec fn destroy_ens(&self, pre: Shared, post_self: Self, post: Shared) -> bool {
        &&& post_self == *self
        &&& post.context == pre.context
        &&& post.actions == pre.actions
        &&& post.next_menu_id == pre.next_menu_id
        &&& post.cells@ == released_cells(pre.cells@, self.cells as int)
    }

    fn get_state_name(&self) -> (r: LootState) {
        LootState::Idle
    }

    fn set_next_state(&mut self, sh: &mut Shared, state: LootState) {
        let _ = sh.cells.try_set_next(self.cells, Some(state));
    }

    fn get_next_state(&self, sh: &Shared) -> (r: Option<LootState>) {
        match sh.cells.try_read(self.cells) {
            Ok(c) => c.next_state,
            Err(_) => None,
        }
    }

    fn enter(&mut self, sh: &mut Shared) {
        let _ = sh.cells.try_set_active(self.cells, true);
        if !self.connected {
            if sh.context.collider.is_some() {
                self.connected = true;
            }
        }
    }

    fn exit(&mut self, sh: &mut Shared) {
        let ghost pre_cells = sh.cells@;
        let _ = sh.cells.try_set_next(self.cells, Some(LootState::Idle));
        let _ = sh.cells.try_set_active(self.cells, false);
        proof {
            assert(sh.cells@ =~= exited_cells(pre_cells, self.cells as int, LootState::Idle));
        }
    }

    fn input(&mut self, _sh: &mut Shared, _event: InputEvent) {
    }

    fn process(&mut self, _sh: &mut Shared, _dt: u64) {
    }

    fn physics_process(&mut self, _sh: &mut Shared, _dt: u64) {
    }

    fn destroy(&mut self, sh: &mut Shared) {
        sh.cells.release(self.cells);
    }
}

} // verus!
