//! The contract every state of the lootable-object machine satisfies,
//! and the shared record the driver threads through the state hooks.

use vstd::prelude::*;

use crate::cells::{CellArena, CellSet};
use crate::context::LootContext;
use crate::events::{HostAction, InputEvent};
use crate::loot_state::LootState;

verus! {

/// Everything the machine owns on behalf of its states: the coordination
/// cell arena, the loot context, the queue of host actions, and the
/// counter that names the next menu.
#[derive(Debug)]
pub struct Shared {
    pub cells: CellArena,
    pub context: LootContext,
    pub actions: Vec<HostAction>,
    pub next_menu_id: u64,
}

impl Shared {
    pub open spec fn wf(self) -> bool {
        self.context.wf()
    }
}

/// The interface every state of the machine satisfies: a stable
/// identifier, `enter`/`exit` lifecycle hooks, per-tick hooks that run
/// only while the state is current, a teardown hook, and the
/// non-blocking transition-request query backed by the state's cell set.
///
/// Each hook's exact effect is given by the implementing type through
/// the `*_ens` spec functions; the driver's own guarantees are proved
/// from them.
pub trait State: Sized {
    /// The identifier this state object answers to.
    spec fn state_id(&self) -> LootState;

    /// The handle of the cell set this state shares with its listeners.
    spec fn handle(&self) -> int;

    /// Exact effect of `enter`.
    spec fn enter_ens(&self, pre: Shared, post_self: Self, post: Shared) -> bool;

    /// Exact effect of `exit`.
    spec fn exit_ens(&self, pre: Shared, post_self: Self, post: Shared) -> bool;

    /// Exact effect of `input`.
    spec fn input_ens(&self, pre: Shared, event: InputEvent, post_self: Self, post: Shared) -> bool;

    /// Exact effect of `process`.
    spec fn process_ens(&self, pre: Shared, post_self: Self, post: Shared) -> bool;

    /// Exact effect of `physics_process`.
    spec fn physics_ens(&self, pre: Shared, post_self: Self, post: Shared) -> bool;

    /// Exact effect of `destroy`.
    spec fn destroy_ens(&self, pre: Shared, post_self: Self, post: Shared) -> bool;

    fn get_state_name(&self) -> (r: LootState)
        ensures
            r == self.state_id(),
    ;

    /// Record a transition request in this state's cell set; fail-soft
    /// when the cells are gone.
    fn set_next_state(&mut self, sh: &mut Shared, state: LootState)
        ensures
            *final(self) == *old(self),
            final(sh).context == old(sh).context,
            final(sh).actions == old(sh).actions,
            final(sh).next_menu_id == old(sh).next_menu_id,
            old(sh).cells.live(old(self).handle()) ==> final(sh).cells@ == old(sh).cells@.update(
                old(self).handle(),
                CellSet { next_state: Some(state), ..old(sh).cells@[old(self).handle()] },
            ),
            !old(sh).cells.live(old(self).handle()) ==> final(sh).cells == old(sh).cells,
    ;

    /// The transition request recorded for this state, if any; `None`
    /// when the cells are gone.
    fn get_next_state(&self, sh: &Shared) -> (r: Option<LootState>)
        ensures
            r == (if sh.cells.live(self.handle()) {
                sh.cells@[self.handle()].next_state
            } else {
                None::<LootState>
            }),
    ;

    /// Called exactly once whenever the machine switches to this state.
    fn enter(&mut self, sh: &mut Shared)
        requires
            old(sh).wf(),
        ensures
            final(self).state_id() == old(self).state_id(),
            final(self).handle() == old(self).handle(),
            old(self).enter_ens(*old(sh), *final(self), *final(sh)),
    ;

    /// Called exactly once whenever the machine switches away.
    fn exit(&mut self, sh: &mut Shared)
        requires
            old(sh).wf(),
        ensures
            final(self).state_id() == old(self).state_id(),
            final(self).handle() == old(self).handle(),
            old(self).exit_ens(*old(sh), *final(self), *final(sh)),
    ;

    /// Input dispatched while this state is current.
    fn input(&mut self, sh: &mut Shared, event: InputEvent)
        requires
            old(sh).wf(),
        ensures
            final(self).state_id() == old(self).state_id(),
            final(self).handle() == old(self).handle(),
            old(self).input_ens(*old(sh), event, *final(self), *final(sh)),
    ;

    /// Update-phase tick while this state is current.
    fn process(&mut self, sh: &mut Shared, dt: u64)
        requires
            old(sh).wf(),
        ensures
            final(self).state_id() == old(self).state_id(),
            final(self).handle() == old(self).handle(),
            old(self).process_ens(*old(sh), *final(self), *final(sh)),
    ;

    /// Physics-phase tick while this state is current.
    fn physics_process(&mut self, sh: &mut Shared, dt: u64)
        requires
            old(sh).wf(),
        ensures
            final(self).state_id() == old(self).state_id(),
            final(self).handle() == old(self).handle(),
            old(self).physics_ens(*old(sh), *final(self), *final(sh)),
    ;

    /// Irreversible teardown: the state gives up its cell set.
    fn destroy(&mut self, sh: &mut Shared)
        requires
            old(sh).wf(),
        ensures
            final(self).state_id() == old(self).state_id(),
            final(self).handle() == old(self).handle(),
            old(self).destroy_ens(*old(sh), *final(self), *final(sh)),
    ;
}

/// The cell values after a state's `exit`: its transition request points
/// at itself (so a later re-entry does not replay a stale request) and
/// its active flag is cleared, leaving its subscriptions inert.
pub open spec fn exited_cells(cs: Seq<CellSet>, h: int, id: LootState) -> Seq<CellSet> {
    if 0 <= h < cs.len() && cs[h].in_use {
        cs.update(h, CellSet { next_state: Some(id), active: false, ..cs[h] })
    } else {
        cs
    }
}

/// The cell values after a state's `enter`: its active flag is set, and
/// the inspect state additionally requests its menu.
pub open spec fn entered_cells(cs: Seq<CellSet>, h: int, id: LootState) -> Seq<CellSet> {
    if 0 <= h < cs.len() && cs[h].in_use {
        if id == LootState::Inspect {
            cs.update(h, CellSet { active: true, menu_create_requested: true, ..cs[h] })
        } else {
            cs.update(h, CellSet { active: true, ..cs[h] })
        }
    } else {
        cs
    }
}

/// The cell values after a state's `destroy`: its cell set is released.
pub open spec fn released_cells(cs: Seq<CellSet>, h: int) -> Seq<CellSet> {
    if 0 <= h < cs.len() && cs[h].in_use {
        cs.update(
            h,
            CellSet {
                next_state: None,
                active: false,
                menu: None,
                pointer_hovering: false,
                menu_create_requested: false,
                in_use: false,
            },
        )
    } else {
        cs
    }
}

} // verus!
