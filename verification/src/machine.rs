//! The driver of the lootable-object machine.
//!
//! It owns the states, the shared record, and the lifecycle log, drives
//! ticks and input dispatch, performs transitions with the
//! exit-before-switch-before-enter discipline, intercepts the terminal
//! `Destroy` target as a teardown, and translates host pointer callbacks
//! into bridge dispatches.

use vstd::prelude::*;

use crate::bridges::{HoverListener, IdleListener, InspectListener};
use crate::cells::{CellArena, CellSet};
use crate::context::{
    remove_item_uuid_from_menu, LootContext, LootMachineError, LootOptionListenerError,
};
use crate::events::{HostAction, InputEvent, LifecycleRecord};
use crate::inventory::{add_post, free_capacity, Inventory, InventorySlot};
use crate::loot_state::LootState;
use crate::state::{
    entered_cells, exited_cells, released_cells, Shared, State,
};
use crate::states::hover::Hover;
use crate::states::idle::Idle;
use crate::states::inspect::Inspect;

verus! {

/// The registered state objects, keyed by their identifier. A missing
/// entry makes every dispatch to that identifier a no-op, which covers
/// transient lookups during teardown.
#[derive(Debug)]
pub struct StateTable {
    pub idle: Option<Idle>,
    pub hover: Option<Hover>,
    pub inspect: Option<Inspect>,
}

/// The fixed cell-set handle of each state.
pub open spec fn handle_of(s: LootState) -> int {
    match s {
        LootState::Idle => 0,
        LootState::Hover => 1,
        LootState::Inspect => 2,
        LootState::Destroy => 3,
    }
}

/// The cell arena after teardown: every registered state's cell set is
/// released, in registration order.
pub open spec fn teardown_cells(cs0: Seq<CellSet>, st: StateTable) -> Seq<CellSet> {
    let cs1 = if st.idle is Some {
        released_cells(cs0, 0)
    } else {
        cs0
    };
    let cs2 = if st.hover is Some {
        released_cells(cs1, 1)
    } else {
        cs1
    };
    if st.inspect is Some {
        released_cells(cs2, 2)
    } else {
        cs2
    }
}

/// The state table after the target state's `enter` recorded its
/// subscriptions: only that state's connected flag may rise.
pub open spec fn connect_on_enter(st: StateTable, target: LootState, collider_some: bool) -> StateTable {
    match target {
        LootState::Idle => StateTable {
            idle: match st.idle {
                Some(s) => Some(Idle { cells: s.cells, connected: s.connected || collider_some }),
                None => None,
            },
            ..st
        },
        LootState::Hover => StateTable {
            hover: match st.hover {
                Some(s) => Some(Hover { cells: s.cells, connected: s.connected || collider_some }),
                None => None,
            },
            ..st
        },
        LootState::Inspect => StateTable {
            inspect: match st.inspect {
                Some(s) => Some(
                    Inspect { cells: s.cells, connected: s.connected || collider_some },
                ),
                None => None,
            },
            ..st
        },
        LootState::Destroy => st,
    }
}

/// Everything a call to `transition_to_state` does, by case: a destroyed
/// machine ignores it; a missing outgoing state makes it a no-op; the
/// `Destroy` target tears the machine down after the exit; a missing
/// incoming state switches the identifier but enters nothing; otherwise
/// the exit is observed strictly before the enter, the current state
/// switches in between, and nothing else changes.
pub open spec fn transition_post(pre: LootMachine, post: LootMachine, target: LootState) -> bool {
    if pre.destroyed {
        post == pre
    } else if !pre.registered(pre.current_state) {
        post == (LootMachine { transitioning: false, ..pre })
    } else {
        let a = pre.current_state;
        let cs_exit = exited_cells(pre.shared.cells@, handle_of(a), a);
        if target == LootState::Destroy {
            &&& post.current_state == a
            &&& post.log@ == pre.log@.push(LifecycleRecord::Exited(a))
            &&& post.transitioning == false
            &&& post.destroyed
            &&& post.states.idle is None
            &&& post.states.hover is None
            &&& post.states.inspect is None
            &&& post.shared.next_menu_id == pre.shared.next_menu_id
            &&& post.shared.context.destroyed
            &&& post.shared.context.loot_slots@.len() == 0
            &&& post.shared.context.inventory is None
            &&& post.shared.context.collider is None
            &&& post.shared.cells@ == teardown_cells(cs_exit, pre.states)
            &&& post.shared.actions@ == pre.shared.actions@ + (match pre.shared.context.inventory {
                Some(inv) => seq![HostAction::ReleaseInventory { inventory: inv }],
                None => Seq::<HostAction>::empty(),
            }) + (match pre.shared.context.collider {
                Some(c) => seq![HostAction::FreeCollider { collider: c }],
                None => Seq::<HostAction>::empty(),
            }) + seq![HostAction::FreeMachine]
        } else if !pre.registered(target) {
            &&& post.current_state == target
            &&& post.log@ == pre.log@.push(LifecycleRecord::Exited(a))
            &&& post.transitioning == false
            &&& post.destroyed == false
            &&& post.states == pre.states
            &&& post.shared.context == pre.shared.context
            &&& post.shared.actions == pre.shared.actions
            &&& post.shared.next_menu_id == pre.shared.next_menu_id
            &&& post.shared.cells@ == cs_exit
        } else {
            &&& post.current_state == target
            &&& post.log@ == pre.log@.push(LifecycleRecord::Exited(a)).push(
                LifecycleRecord::Entered(target),
            )
            &&& post.transitioning == false
            &&& post.destroyed == false
            &&& post.states == connect_on_enter(
                pre.states,
                target,
                pre.shared.context.collider is Some,
            )
            &&& post.shared.context == pre.shared.context
            &&& post.shared.actions == pre.shared.actions
            &&& post.shared.next_menu_id == pre.shared.next_menu_id
            &&& post.shared.cells@ == entered_cells(cs_exit, handle_of(target), target)
        }
    }
}

/// A cell set inside a raw arena view is live.
pub open spec fn cells_live(cs: Seq<CellSet>, h: int) -> bool {
    0 <= h < cs.len() && cs[h].in_use
}

/// The idle state exists and has connected its pointer-enter listener.
pub open spec fn idle_bridge_connected(m: LootMachine) -> bool {
    m.states.idle matches Some(st) && st.connected
}

/// The hover state exists and has connected its listeners.
pub open spec fn hover_bridge_connected(m: LootMachine) -> bool {
    m.states.hover matches Some(st) && st.connected
}

/// The inspect state exists and has connected its listeners.
pub open spec fn inspect_bridge_connected(m: LootMachine) -> bool {
    m.states.inspect matches Some(st) && st.connected
}

/// The cells after a pointer-enter delivery: the idle bridge requests
/// Hover if its state is still active, and the inspect bridge records
/// the hover and re-arms menu creation.
pub open spec fn pointer_entered_cells(pre: LootMachine) -> Seq<CellSet> {
    let cs0 = pre.shared.cells@;
    let cs1 = if idle_bridge_connected(pre) && cells_live(cs0, 0) && cs0[0].active {
        cs0.update(0, CellSet { next_state: Some(LootState::Hover), ..cs0[0] })
    } else {
        cs0
    };
    if inspect_bridge_connected(pre) && cells_live(cs1, 2) {
        cs1.update(2, CellSet { pointer_hovering: true, menu_create_requested: true, ..cs1[2] })
    } else {
        cs1
    }
}

/// The cells after a pointer-exit delivery: the hover bridge requests
/// Idle if its state is still active, and the inspect bridge clears the
/// hover flag.
pub open spec fn pointer_exited_cells(pre: LootMachine) -> Seq<CellSet> {
    let cs0 = pre.shared.cells@;
    let cs1 = if hover_bridge_connected(pre) && cells_live(cs0, 1) && cs0[1].active {
        cs0.update(1, CellSet { next_state: Some(LootState::Idle), ..cs0[1] })
    } else {
        cs0
    };
    if inspect_bridge_connected(pre) && cells_live(cs1, 2) {
        cs1.update(2, CellSet { pointer_hovering: false, ..cs1[2] })
    } else {
        cs1
    }
}

/// The cells after a pointer-release delivery: the hover bridge requests
/// Inspect if its state is still active.
pub open spec fn pointer_released_cells(pre: LootMachine) -> Seq<CellSet> {
    let cs0 = pre.shared.cells@;
    if hover_bridge_connected(pre) && cells_live(cs0, 1) && cs0[1].active {
        cs0.update(1, CellSet { next_state: Some(LootState::Inspect), ..cs0[1] })
    } else {
        cs0
    }
}

/// The loot flow triggered by an activated menu row carrying `id`, at
/// the first remaining entry `i` whose item carries that identifier: the
/// entry's stack is merged into the inventory; a fully absorbed entry
/// leaves the list, a leftover stays listed; an emptied list frees the
/// collider and requests `Destroy`, otherwise `Idle` is requested; the
/// menu closes and the inspect state's active flag clears.
pub open spec fn option_flow_at(pre: LootMachine, post: LootMachine, id: Seq<char>, i: int) -> bool {
    let slots0 = pre.shared.context.loot_slots@;
    let im = slots0[i]@.item->Some_0;
    let c0 = slots0[i]@.count;
    let cap = free_capacity(
        pre.shared.context.inventory->Some_0@,
        im.name,
        im.max_stack_size,
    );
    let left = if c0 - cap > 0 {
        c0 - cap
    } else {
        0
    };
    let emptied = left == 0 && slots0.len() == 1;
    &&& 0 <= i < slots0.len()
    &&& (slots0[i]@.item matches Some(it) && it.uuid == id)
    &&& forall|j: int|
        0 <= j < i ==> !((#[trigger] slots0[j])@.item matches Some(it2) && it2.uuid == id)
    &&& pre.shared.context.inventory is Some
    &&& (post.shared.context.inventory matches Some(inv1) && add_post(
        pre.shared.context.inventory->Some_0@,
        inv1@,
        im,
        c0,
        left,
    ))
    &&& if left == 0 {
        post.shared.context.loot_slots@ == slots0.remove(i)
    } else {
        post.shared.context.loot_slots@ == slots0.update(
            i,
            InventorySlot { item: slots0[i].item, count: left as i32 },
        )
    }
    &&& post.shared.context.destroyed == pre.shared.context.destroyed
    &&& post.shared.context.collider == (if emptied {
        None::<u64>
    } else {
        pre.shared.context.collider
    })
    &&& post.shared.cells@ == pre.shared.cells@.update(
        2,
        CellSet {
            active: false,
            menu: None,
            next_state: Some(
                if emptied {
                    LootState::Destroy
                } else {
                    LootState::Idle
                },
            ),
            ..pre.shared.cells@[2]
        },
    )
    &&& post.shared.actions@ == pre.shared.actions@ + (if emptied
        && pre.shared.context.collider is Some {
        seq![HostAction::FreeCollider { collider: pre.shared.context.collider->Some_0 }]
    } else {
        Seq::<HostAction>::empty()
    }) + seq![HostAction::CloseMenu { menu: pre.shared.cells@[2].menu->Some_0 }]
}

/// The loot flow happened at the first entry matching `id`.
pub open spec fn option_flow_post(pre: LootMachine, post: LootMachine, id: Seq<char>) -> bool {
    exists|i: int| option_flow_at(pre, post, id, i)
}

/// The first remaining-loot entry whose item carries this identifier.
fn find_loot_index(slots: &Vec<InventorySlot>, id: &String) -> (r: Option<usize>)
    ensures
        match r {
            Some(i) => {
                &&& (i as int) < slots@.len()
                &&& (slots@[i as int]@.item matches Some(it) && it.uuid == id@)
                &&& forall|j: int|
                    0 <= j < i as int ==> !((#[trigger] slots@[j])@.item matches Some(it2)
                        && it2.uuid == id@)
            },
            None => forall|j: int|
                0 <= j < slots@.len() ==> !((#[trigger] slots@[j])@.item matches Some(it2)
                    && it2.uuid == id@),
        },
{
    let n: usize = slots.len();
    let mut k: usize = 0;
    while k < n
        invariant
            n == slots@.len(),
            k <= n,
            forall|j: int|
                0 <= j < k ==> !((#[trigger] slots@[j])@.item matches Some(it2) && it2.uuid
                    == id@),
        decreases n - k,
    {
        let hit: bool = match &slots[k].item {
            Some(it) => it.uuid == *id,
            None => false,
        };
        if hit {
            return Some(k);
        }
        k = k + 1;
    }
    None
}

/// What an update tick does when no transition is due: the current
/// state's `process` hook runs (only the inspect state's does anything),
/// or nothing happens when the state object is missing.
pub open spec fn process_update_post(pre: LootMachine, post: LootMachine) -> bool {
    &&& post.current_state == pre.current_state
    &&& post.transitioning == pre.transitioning
    &&& post.log == pre.log
    &&& post.destroyed == pre.destroyed
    &&& post.states == pre.states
    &&& match pre.current_state {
        LootState::Inspect => match pre.states.inspect {
            Some(st) => st.process_ens(pre.shared, post.states.inspect->Some_0, post.shared),
            None => post.shared == pre.shared,
        },
        _ => post.shared == pre.shared,
    }
}

/// What a physics tick does when no transition is due.
pub open spec fn physics_update_post(pre: LootMachine, post: LootMachine) -> bool {
    &&& post.current_state == pre.current_state
    &&& post.transitioning == pre.transitioning
    &&& post.log == pre.log
    &&& post.destroyed == pre.destroyed
    &&& post.states == pre.states
    &&& match pre.current_state {
        LootState::Inspect => match pre.states.inspect {
            Some(st) => st.physics_ens(pre.shared, post.states.inspect->Some_0, post.shared),
            None => post.shared == pre.shared,
        },
        _ => post.shared == pre.shared,
    }
}

/// What input dispatch does: the event goes to the current state's
/// `input` hook (only the inspect state's reacts), and no transition is
/// ever triggered by it.
pub open spec fn input_dispatch_post(pre: LootMachine, event: InputEvent, post: LootMachine) -> bool {
    &&& post.current_state == pre.current_state
    &&& post.transitioning == pre.transitioning
    &&& post.log == pre.log
    &&& post.destroyed == pre.destroyed
    &&& post.states == pre.states
    &&& match pre.current_state {
        LootState::Inspect => match pre.states.inspect {
            Some(st) => st.input_ens(pre.shared, event, post.states.inspect->Some_0, post.shared),
            None => post.shared == pre.shared,
        },
        _ => post.shared == pre.shared,
    }
}

/// A concrete loot interaction machine: idle, hover and inspect states
/// over a shared loot context, with a transition guard and an observable
/// lifecycle log.
#[derive(Debug)]
pub struct LootMachine {
    pub states: StateTable,
    pub current_state: LootState,
    pub transitioning: bool,
    pub shared: Shared,
    pub log: Vec<LifecycleRecord>,
    pub destroyed: bool,
}

impl LootMachine {
    /// The state object for this identifier is registered.
    pub open spec fn registered(self, s: LootState) -> bool {
        match s {
            LootState::Idle => self.states.idle is Some,
            LootState::Hover => self.states.hover is Some,
            LootState::Inspect => self.states.inspect is Some,
            LootState::Destroy => false,
        }
    }

    /// The cell set of this state.
    pub open spec fn cell(self, s: LootState) -> CellSet {
        self.shared.cells@[handle_of(s)]
    }

    /// Structural well-formedness: three cell sets, each registered
    /// state bound to its fixed handle, a live current state, a
    /// well-formed context, and — until teardown — live cells.
    pub open spec fn wf(self) -> bool {
        &&& self.shared.context.wf()
        &&& self.shared.cells@.len() == 3
        &&& (self.states.idle matches Some(st) ==> st.cells == 0)
        &&& (self.states.hover matches Some(st) ==> st.cells == 1)
        &&& (self.states.inspect matches Some(st) ==> st.cells == 2)
        &&& self.current_state != LootState::Destroy
        &&& self.destroyed ==> self.states.idle is None && self.states.hover is None
            && self.states.inspect is None
    }

    /// The transition request recorded by the current state, if its
    /// state object and cells are there to answer.
    pub open spec fn pending_next(self) -> Option<LootState> {
        if self.registered(self.current_state) && self.shared.cells.live(
            handle_of(self.current_state),
        ) {
            self.cell(self.current_state).next_state
        } else {
            None
        }
    }

    /// A tick that sees this machine performs a transition instead of an
    /// update: a request for a state other than the current one is
    /// pending and no transition is already in progress.
    pub open spec fn wants_transition(self) -> bool {
        &&& !self.destroyed
        &&& !self.transitioning
        &&& self.pending_next() matches Some(n) && n != self.current_state
    }

    /// The machine's current state identifier.
    pub fn get_current_state(&self) -> (r: LootState)
        ensures
            r == self.current_state,
    {
        self.current_state
    }

    /// Whether a transition is in progress.
    pub fn get_transitioning(&self) -> (r: bool)
        ensures
            r == self.transitioning,
    {
        self.transitioning
    }

    /// Bind a freshly spawned loot source to a new machine instance:
    /// allocate the coordination cells, register the three states, and
    /// enter the initial idle state before the first tick.
    pub fn start(context: LootContext) -> (m: LootMachine)
        requires
            context.wf(),
        ensures
            m.wf(),
            !m.destroyed,
            m.current_state == LootState::Idle,
            !m.transitioning,
            m.registered(LootState::Idle),
            m.registered(LootState::Hover),
            m.registered(LootState::Inspect),
            m.shared.context == context,
            m.shared.actions@ == Seq::<HostAction>::empty(),
            m.shared.next_menu_id == 0,
            m.log@ == seq![
                LifecycleRecord::Exited(LootState::Idle),
                LifecycleRecord::Entered(LootState::Idle),
            ],
            m.cell(LootState::Idle) == (CellSet {
                next_state: Some(LootState::Idle),
                active: true,
                menu: None,
                pointer_hovering: false,
                menu_create_requested: false,
                in_use: true,
            }),
            m.cell(LootState::Hover) == (CellSet {
                next_state: None,
                active: false,
                menu: None,
                pointer_hovering: false,
                menu_create_requested: false,
                in_use: true,
            }),
            m.cell(LootState::Inspect) == (CellSet {
                next_state: None,
                active: false,
                menu: None,
                pointer_hovering: false,
                menu_create_requested: false,
                in_use: true,
            }),
    {
        let mut cells = CellArena::new();
        let h_idle: usize = cells.allocate();
        let h_hover: usize = cells.allocate();
        let h_inspect: usize = cells.allocate();
        let shared = Shared { cells, context, actions: Vec::new(), next_menu_id: 0 };
        let states = StateTable {
            idle: Some(Idle::new(h_idle)),
            hover: Some(Hover::new(h_hover)),
            inspect: Some(Inspect::new(h_inspect)),
        };
        let mut m = LootMachine {
            states,
            current_state: LootState::Idle,
            transitioning: false,
            shared,
            log: Vec::new(),
            destroyed: false,
        };
        m.transition_to_state(LootState::Idle);
        m
    }

    /// Perform a transition: raise the guard, run `exit` on the outgoing
    /// state, switch, run `enter` on the incoming state, drop the guard.
    /// The lifecycle log records the exit strictly before the enter. A
    /// missing state object makes the affected half a no-op, and the
    /// terminal `Destroy` target tears the machine down instead of
    /// entering anything.
    pub fn transition_to_state(&mut self, next_state: LootState)
        requires
            old(self).wf(),
        ensures
            final(self).wf(),
            transition_post(*old(self), *final(self), next_state),
    {
        if self.destroyed {
            return;
        }
        self.transitioning = true;
        let cur: LootState = self.current_state;
        let exited: bool = match cur {
            LootState::Idle => match &mut self.states.idle {
                Some(st) => {
                    st.exit(&mut self.shared);
                    true
                },
                None => false,
            },
            LootState::Hover => match &mut self.states.hover {
                Some(st) => {
                    st.exit(&mut self.shared);
                    true
                },
                None => false,
            },
            LootState::Inspect => match &mut self.states.inspect {
                Some(st) => {
                    st.exit(&mut self.shared);
                    true
                },
                None => false,
            },
            LootState::Destroy => false,
        };
        if !exited {
            self.transitioning = false;
            return;
        }
        self.log.push(LifecycleRecord::Exited(cur));
        if next_state == LootState::Destroy {
            self.destroy();
            return;
        }
        self.current_state = next_state;
        let entered: bool = match next_state {
            LootState::Idle => match &mut self.states.idle {
                Some(st) => {
                    st.enter(&mut self.shared);
                    true
                },
                None => false,
            },
            LootState::Hover => match &mut self.states.hover {
                Some(st) => {
                    st.enter(&mut self.shared);
                    true
                },
                None => false,
            },
            LootState::Inspect => match &mut self.states.inspect {
                Some(st) => {
                    st.enter(&mut self.shared);
                    true
                },
                None => false,
            },
            LootState::Destroy => false,
        };
        if !entered {
            self.transitioning = false;
            return;
        }
        self.log.push(LifecycleRecord::Entered(next_state));
        self.transitioning = false;
    }

    /// Tear the machine down: destroy every registered state (each gives
    /// up its cell set), clear the state table, destroy the shared
    /// context — the inventory is handed back to the host, the remaining
    /// loot slots are cleared, the collider freed if still held — and
    /// finally ask the host to free the machine's own representation.
    fn destroy(&mut self)
        requires
            old(self).wf(),
        ensures
            final(self).wf(),
            final(self).states.idle is None,
            final(self).states.hover is None,
            final(self).states.inspect is None,
            final(self).current_state == old(self).current_state,
            final(self).log == old(self).log,
            final(self).transitioning == false,
            final(self).destroyed,
            final(self).shared.next_menu_id == old(self).shared.next_menu_id,
            final(self).shared.context.destroyed,
            final(self).shared.context.loot_slots@.len() == 0,
            final(self).shared.context.inventory is None,
            final(self).shared.context.collider is None,
            final(self).shared.cells@ == teardown_cells(old(self).shared.cells@, old(self).states),
            final(self).shared.actions@ == old(self).shared.actions@ + (match old(
                self,
            ).shared.context.inventory {
                Some(inv) => seq![HostAction::ReleaseInventory { inventory: inv }],
                None => Seq::<HostAction>::empty(),
            }) + (match old(self).shared.context.collider {
                Some(c) => seq![HostAction::FreeCollider { collider: c }],
                None => Seq::<HostAction>::empty(),
            }) + seq![HostAction::FreeMachine],
    {
        let ghost pre = *self;
        let mut idle_opt: Option<Idle> = None;
        core::mem::swap(&mut self.states.idle, &mut idle_opt);
        match idle_opt {
            Some(mut st) => {
                st.destroy(&mut self.shared);
            },
            None => {},
        }
        let mut hover_opt: Option<Hover> = None;
        core::mem::swap(&mut self.states.hover, &mut hover_opt);
        match hover_opt {
            Some(mut st) => {
                st.destroy(&mut self.shared);
            },
            None => {},
        }
        let mut inspect_opt: Option<Inspect> = None;
        core::mem::swap(&mut self.states.inspect, &mut inspect_opt);
        match inspect_opt {
            Some(mut st) => {
                st.destroy(&mut self.shared);
            },
            None => {},
        }

        let ghost actions0 = self.shared.actions@;
        let mut inv_opt: Option<Inventory> = None;
        core::mem::swap(&mut self.shared.context.inventory, &mut inv_opt);
        match inv_opt {
            Some(inv) => {
                self.shared.actions.push(HostAction::ReleaseInventory { inventory: inv });
            },
            None => {},
        }
        self.shared.context.loot_slots.clear();
        let collider_opt: Option<u64> = self.shared.context.collider;
        match collider_opt {
            Some(c) => {
                self.shared.actions.push(HostAction::FreeCollider { collider: c });
                self.shared.context.collider = None;
            },
            None => {},
        }
        self.shared.context.destroyed = true;
        self.shared.actions.push(HostAction::FreeMachine);
        self.destroyed = true;
        self.transitioning = false;
        proof {
            assert(self.shared.actions@ =~= pre.shared.actions@ + (match pre.shared.context.inventory {
                Some(inv) => seq![HostAction::ReleaseInventory { inventory: inv }],
                None => Seq::<HostAction>::empty(),
            }) + (match pre.shared.context.collider {
                Some(c) => seq![HostAction::FreeCollider { collider: c }],
                None => Seq::<HostAction>::empty(),
            }) + seq![HostAction::FreeMachine]);
        }
    }

    /// Evaluate whether this tick transitions: the current state has
    /// recorded a request for a different state and no transition is in
    /// progress.
    fn should_transition(&self) -> (r: (bool, LootState))
        requires
            self.wf(),
            !self.destroyed,
        ensures
            r.0 == self.wants_transition(),
            r.0 ==> Some(r.1) == self.pending_next(),
    {
        let next_opt: Option<LootState> = match self.current_state {
            LootState::Idle => match &self.states.idle {
                Some(st) => st.get_next_state(&self.shared),
                None => None,
            },
            LootState::Hover => match &self.states.hover {
                Some(st) => st.get_next_state(&self.shared),
                None => None,
            },
            LootState::Inspect => match &self.states.inspect {
                Some(st) => st.get_next_state(&self.shared),
                None => None,
            },
            LootState::Destroy => None,
        };
        match next_opt {
            Some(n) => {
                if !self.transitioning && n != self.current_state {
                    (true, n)
                } else {
                    (false, self.current_state)
                }
            },
            None => (false, self.current_state),
        }
    }

    /// Update-phase tick: a due transition is performed, otherwise the
    /// current state's `process` hook runs — never both in one tick. A
    /// pending request for the already-current state fires no exit/enter
    /// pair: the lifecycle log is untouched whenever no transition is due.
    pub fn process(&mut self, dt: u64)
        requires
            old(self).wf(),
        ensures
            final(self).wf(),
            old(self).destroyed ==> *final(self) == *old(self),
            !old(self).wants_transition() ==> final(self).log == old(self).log,
            old(self).wants_transition() ==> transition_post(
                *old(self),
                *final(self),
                old(self).pending_next()->Some_0,
            ),
            !old(self).destroyed && !old(self).wants_transition() ==> process_update_post(
                *old(self),
                *final(self),
            ),
    {
        if self.destroyed {
            return;
        }
        let decision: (bool, LootState) = self.should_transition();
        if decision.0 {
            self.transition_to_state(decision.1);
            return;
        }
        match self.current_state {
            LootState::Idle => match &mut self.states.idle {
                Some(st) => st.process(&mut self.shared, dt),
                None => {},
            },
            LootState::Hover => match &mut self.states.hover {
                Some(st) => st.process(&mut self.shared, dt),
                None => {},
            },
            LootState::Inspect => match &mut self.states.inspect {
                Some(st) => st.process(&mut self.shared, dt),
                None => {},
            },
            LootState::Destroy => {},
        }
    }

    /// Physics-phase tick: the same transition-or-update discipline as
    /// `process`, dispatching the `physics_process` hook instead.
    pub fn physics_process(&mut self, dt: u64)
        requires
            old(self).wf(),
        ensures
            final(self).wf(),
            old(self).destroyed ==> *final(self) == *old(self),
            !old(self).wants_transition() ==> final(self).log == old(self).log,
            old(self).wants_transition() ==> transition_post(
                *old(self),
                *final(self),
                old(self).pending_next()->Some_0,
            ),
            !old(self).destroyed && !old(self).wants_transition() ==> physics_update_post(
                *old(self),
                *final(self),
            ),
    {
        if self.destroyed {
            return;
        }
        let decision: (bool, LootState) = self.should_transition();
        if decision.0 {
            self.transition_to_state(decision.1);
            return;
        }
        match self.current_state {
            LootState::Idle => match &mut self.states.idle {
                Some(st) => st.physics_process(&mut self.shared, dt),
                None => {},
            },
            LootState::Hover => match &mut self.states.hover {
                Some(st) => st.physics_process(&mut self.shared, dt),
                None => {},
            },
            LootState::Inspect => match &mut self.states.inspect {
                Some(st) => st.physics_process(&mut self.shared, dt),
                None => {},
            },
            LootState::Destroy => {},
        }
    }

    /// Forward an input event to the current state. Input dispatch never
    /// triggers a transition check itself.
    pub fn input(&mut self, event: InputEvent)
        requires
            old(self).wf(),
        ensures
            final(self).wf(),
            old(self).destroyed ==> *final(self) == *old(self),
            final(self).log == old(self).log,
            !old(self).destroyed ==> input_dispatch_post(*old(self), event, *final(self)),
    {
        if self.destroyed {
            return;
        }
        match self.current_state {
            LootState::Idle => match &mut self.states.idle {
                Some(st) => st.input(&mut self.shared, event),
                None => {},
            },
            LootState::Hover => match &mut self.states.hover {
                Some(st) => st.input(&mut self.shared, event),
                None => {},
            },
            LootState::Inspect => match &mut self.states.inspect {
                Some(st) => st.input(&mut self.shared, event),
                None => {},
            },
            LootState::Destroy => {},
        }
    }

    /// Host callback: the pointer entered the loot source's collider.
    /// Dispatched to every connected bridge; a bridge whose state is no
    /// longer active records no transition request.
    pub fn pointer_entered(&mut self)
        requires
            old(self).wf(),
        ensures
            final(self).wf(),
            final(self).log == old(self).log,
            final(self).current_state == old(self).current_state,
            final(self).transitioning == old(self).transitioning,
            final(self).destroyed == old(self).destroyed,
            final(self).states == old(self).states,
            final(self).shared.context == old(self).shared.context,
            final(self).shared.actions == old(self).shared.actions,
            final(self).shared.next_menu_id == old(self).shared.next_menu_id,
            final(self).shared.cells@ == pointer_entered_cells(*old(self)),
            // stale-listener immunity: an inactive idle state keeps its request
            !old(self).cell(LootState::Idle).active ==> final(self).cell(
                LootState::Idle,
            ).next_state == old(self).cell(LootState::Idle).next_state,
    {
        let idle_h: Option<usize> = match &self.states.idle {
            Some(st) => if st.connected {
                Some(st.cells)
            } else {
                None
            },
            None => None,
        };
        match idle_h {
            Some(h) => {
                let listener = IdleListener { cells: h };
                let _ = listener.mouse_entered(&mut self.shared.cells);
            },
            None => {},
        }
        let inspect_h: Option<usize> = match &self.states.inspect {
            Some(st) => if st.connected {
                Some(st.cells)
            } else {
                None
            },
            None => None,
        };
        match inspect_h {
            Some(h) => {
                let listener = InspectListener { cells: h };
                let _ = listener.mouse_entered(&mut self.shared.cells);
            },
            None => {},
        }
    }

    /// Host callback: the pointer left the collider. A delivery after
    /// the hover state exited (its active flag cleared) produces no
    /// transition request.
    pub fn pointer_exited(&mut self)
        requires
            old(self).wf(),
        ensures
            final(self).wf(),
            final(self).log == old(self).log,
            final(self).current_state == old(self).current_state,
            final(self).transitioning == old(self).transitioning,
            final(self).destroyed == old(self).destroyed,
            final(self).states == old(self).states,
            final(self).shared.context == old(self).shared.context,
            final(self).shared.actions == old(self).shared.actions,
            final(self).shared.next_menu_id == old(self).shared.next_menu_id,
            final(self).shared.cells@ == pointer_exited_cells(*old(self)),
            // stale-listener immunity: an inactive hover state keeps its request
            !old(self).cell(LootState::Hover).active ==> final(self).cell(
                LootState::Hover,
            ).next_state == old(self).cell(LootState::Hover).next_state,
    {
        let hover_h: Option<usize> = match &self.states.hover {
            Some(st) => if st.connected {
                Some(st.cells)
            } else {
                None
            },
            None => None,
        };
        match hover_h {
            Some(h) => {
                let listener = HoverListener { cells: h };
                let _ = listener.mouse_exited(&mut self.shared.cells);
            },
            None => {},
        }
        let inspect_h: Option<usize> = match &self.states.inspect {
            Some(st) => if st.connected {
                Some(st.cells)
            } else {
                None
            },
            None => None,
        };
        match inspect_h {
            Some(h) => {
                let listener = InspectListener { cells: h };
                let _ = listener.mouse_exited(&mut self.shared.cells);
            },
            None => {},
        }
    }

    /// Host callback: a pointer button was released over the collider.
    /// While the hover state is active this requests the inspect state.
    pub fn pointer_released(&mut self)
        requires
            old(self).wf(),
        ensures
            final(self).wf(),
            final(self).log == old(self).log,
            final(self).current_state == old(self).current_state,
            final(self).transitioning == old(self).transitioning,
            final(self).destroyed == old(self).destroyed,
            final(self).states == old(self).states,
            final(self).shared.context == old(self).shared.context,
            final(self).shared.actions == old(self).shared.actions,
            final(self).shared.next_menu_id == old(self).shared.next_menu_id,
            final(self).shared.cells@ == pointer_released_cells(*old(self)),
            !old(self).cell(LootState::Hover).active ==> final(self).cell(
                LootState::Hover,
            ).next_state == old(self).cell(LootState::Hover).next_state,
    {
        let hover_h: Option<usize> = match &self.states.hover {
            Some(st) => if st.connected {
                Some(st.cells)
            } else {
                None
            },
            None => None,
        };
        match hover_h {
            Some(h) => {
                let listener = HoverListener { cells: h };
                let _ = listener.input_event(
                    &mut self.shared.cells,
                    InputEvent::MouseButton { released: true },
                );
            },
            None => {},
        }
    }

    /// Host callback from the menu collaborator: whether the pointer is
    /// over the menu's bounds. Keeps the inspect state's hover flag
    /// current so that click-outside dismissal can tell the difference.
    pub fn menu_hover_changed(&mut self, hovering: bool)
        requires
            old(self).wf(),
        ensures
            final(self).wf(),
            final(self).log == old(self).log,
            final(self).current_state == old(self).current_state,
            final(self).transitioning == old(self).transitioning,
            final(self).destroyed == old(self).destroyed,
            final(self).states == old(self).states,
            final(self).shared.context == old(self).shared.context,
            final(self).shared.actions == old(self).shared.actions,
            final(self).shared.next_menu_id == old(self).shared.next_menu_id,
            final(self).shared.cells@ == (if old(self).registered(LootState::Inspect) && old(
                self,
            ).shared.cells.live(2) {
                old(self).shared.cells@.update(
                    2,
                    CellSet { pointer_hovering: hovering, ..old(self).shared.cells@[2] },
                )
            } else {
                old(self).shared.cells@
            }),
    {
        let inspect_h: Option<usize> = match &self.states.inspect {
            Some(st) => Some(st.cells),
            None => None,
        };
        match inspect_h {
            Some(h) => {
                let _ = self.shared.cells.try_set_hovering(h, hovering);
            },
            None => {},
        }
    }

    /// Host callback from the menu collaborator: the row carrying this
    /// identifier was activated. The row's stack is merged into the
    /// target inventory; if it was fully absorbed the entry leaves the
    /// remaining-loot list, otherwise the leftover stays listed. When the
    /// list empties the collider is freed and the terminal `Destroy`
    /// state is requested, otherwise `Idle`; in both cases the menu
    /// closes and the inspect state's active flag clears so that stale
    /// callbacks stay inert.
    ///
    /// A delivery while no menu is open (for instance after dismissal,
    /// or for the aggregate row, which grants nothing itself) is ignored;
    /// an identifier that names no remaining entry is reported.
    pub fn option_activated(&mut self, row_id: &String) -> (r: Result<
        (),
        LootOptionListenerError,
    >)
        requires
            old(self).wf(),
        ensures
            final(self).wf(),
            final(self).log == old(self).log,
            final(self).current_state == old(self).current_state,
            final(self).transitioning == old(self).transitioning,
            final(self).destroyed == old(self).destroyed,
            final(self).states == old(self).states,
            final(self).shared.next_menu_id == old(self).shared.next_menu_id,
            match r {
                Result::Err(e) => *final(self) == *old(self) && match e {
                    LootOptionListenerError::MissingLootedIndex => old(self).registered(
                        LootState::Inspect,
                    ) && old(self).shared.cells.live(2) && old(self).cell(
                        LootState::Inspect,
                    ).menu is Some && forall|j: int|
                        0 <= j < old(self).shared.context.loot_slots@.len() ==> !((#[trigger] old(
                            self,
                        ).shared.context.loot_slots@[j])@.item matches Some(it) && it.uuid
                            == row_id@),
                    LootOptionListenerError::InventoryBorrow => old(
                        self,
                    ).shared.context.inventory is None,
                    _ => false,
                },
                Result::Ok(()) => {
                    if !old(self).registered(LootState::Inspect) || !old(self).shared.cells.live(2)
                        || old(self).cell(LootState::Inspect).menu is None {
                        // a stale activation is ignored
                        *final(self) == *old(self)
                    } else {
                        option_flow_post(*old(self), *final(self), row_id@)
                    }
                },
            },
    {
        let h: usize = match &self.states.inspect {
            Some(st) => st.cells,
            None => {
                return Ok(());
            },
        };
        let cell = match self.shared.cells.try_read(h) {
            Ok(c) => c,
            Err(_) => {
                return Ok(());
            },
        };
        match cell.menu {
            Some(_) => {},
            None => {
                return Ok(());
            },
        }

        let idx: usize = match find_loot_index(&self.shared.context.loot_slots, row_id) {
            Some(i) => i,
            None => {
                return Err(LootOptionListenerError::MissingLootedIndex);
            },
        };
        let ghost slots0 = self.shared.context.loot_slots@;
        let ghost cells0 = self.shared.cells@;
        let ghost actions0 = self.shared.actions@;
        let ghost inv0 = self.shared.context.inventory->Some_0;
        let uuid: String = match &self.shared.context.loot_slots[idx].item {
            Some(it) => it.uuid.clone(),
            None => {
                // the context invariant guarantees an item here
                proof {
                    assert(false);
                }
                return Err(LootOptionListenerError::MissingLootItem);
            },
        };

        // merge the activated stack into the target inventory
        let done: bool;
        match &mut self.shared.context.inventory {
            Some(inv) => {
                let slot = &mut self.shared.context.loot_slots[idx];
                match inv.add(slot) {
                    Ok(b) => {
                        done = b;
                    },
                    Err(_) => {
                        // a merge is only refused for an itemless slot,
                        // which the context invariant rules out
                        proof {
                            assert(false);
                        }
                        return Err(LootOptionListenerError::AddToInventory);
                    },
                }
            },
            None => {
                return Err(LootOptionListenerError::InventoryBorrow);
            },
        }

        proof {
            let i = idx as int;
            let im = slots0[i]@.item->Some_0;
            let c0 = slots0[i]@.count;
            let cap = free_capacity(inv0@, im.name, im.max_stack_size);
            let left: int = if c0 - cap > 0 {
                c0 - cap
            } else {
                0
            };
            assert(self.shared.context.loot_slots@[i]@.count == left);
            assert(self.shared.context.loot_slots@ =~= slots0.update(
                i,
                InventorySlot { item: slots0[i].item, count: left as i32 },
            ));
            assert(done == (left == 0));
        }

        // a fully absorbed entry leaves the remaining list
        if done {
            let ghost pre_slots = self.shared.context.loot_slots@;
            match remove_item_uuid_from_menu(&uuid, &mut self.shared.context.loot_slots) {
                Ok(()) => {
                    proof {
                        let i = choose|i: int|
                            {
                                &&& 0 <= i < pre_slots.len()
                                &&& (#[trigger] pre_slots[i])@.item matches Some(it) && it.uuid
                                    == uuid@
                                &&& forall|j: int|
                                    0 <= j < i ==> ((#[trigger] pre_slots[j])@.item matches Some(
                                        it2,
                                    ) && it2.uuid != uuid@)
                                &&& self.shared.context.loot_slots@ == pre_slots.remove(i)
                            };
                        if i < idx {
                            assert((pre_slots[i])@.item matches Some(it) && it.uuid == uuid@);
                            assert(false);
                        }
                        if i > idx {
                            assert((pre_slots[idx as int])@.item matches Some(it2) && it2.uuid
                                != uuid@);
                            assert(false);
                        }
                        assert(self.shared.context.loot_slots@ =~= slots0.remove(idx as int));
                    }
                },
                Err(_) => {
                    // the entry found above still carries the identifier
                    proof {
                        assert(false);
                    }
                    return Err(LootOptionListenerError::MissingLootedIndex);
                },
            }
        }

        // an emptied loot source gives up its collider
        if self.shared.context.loot_slots.len() == 0 {
            let collider_opt: Option<u64> = self.shared.context.collider;
            match collider_opt {
                Some(c) => {
                    self.shared.actions.push(HostAction::FreeCollider { collider: c });
                    self.shared.context.collider = None;
                },
                None => {},
            }
        }

        // close the menu, clear the active flag, request the next state
        let remaining_empty: bool = self.shared.context.loot_slots.len() == 0;
        let listener = InspectListener { cells: h };
        match listener.option_clicked(&mut self.shared.cells, remaining_empty) {
            Ok(menu) => {
                self.shared.actions.push(HostAction::CloseMenu { menu });
            },
            Err(_) => {
                // the cells are live and the menu was read as open above
                proof {
                    assert(false);
                }
            },
        }
        proof {
            let pre = *old(self);
            let i = idx as int;
            let im = slots0[i]@.item->Some_0;
            let c0 = slots0[i]@.count;
            let cap = free_capacity(inv0@, im.name, im.max_stack_size);
            let left: int = if c0 - cap > 0 {
                c0 - cap
            } else {
                0
            };
            let emptied = left == 0 && slots0.len() == 1;
            assert(remaining_empty == emptied);
            assert(self.shared.actions@ =~= actions0 + (if emptied
                && pre.shared.context.collider is Some {
                seq![HostAction::FreeCollider { collider: pre.shared.context.collider->Some_0 }]
            } else {
                Seq::<HostAction>::empty()
            }) + seq![HostAction::CloseMenu { menu: cells0[2].menu->Some_0 }]);
            assert(option_flow_at(pre, *self, row_id@, i));
        }
        Ok(())
    }

    /// How many lootable entries remain. Fails softly once the shared
    /// context has been destroyed: a torn-down loot source must not be
    /// used again.
    pub fn remaining_loot_count(&self) -> (r: Result<usize, LootMachineError>)
        ensures
            match r {
                Result::Ok(n) => !self.shared.context.destroyed && n
                    == self.shared.context.loot_slots@.len(),
                Result::Err(e) => self.shared.context.destroyed && e == LootMachineError::Context,
            },
    {
        if self.shared.context.destroyed {
            Err(LootMachineError::Context)
        } else {
            Ok(self.shared.context.loot_slots.len())
        }
    }

    /// Drain the queued host actions, leaving the queue empty.
    pub fn take_actions(&mut self) -> (r: Vec<HostAction>)
        ensures
            r == old(self).shared.actions,
            final(self).shared.actions@ == Seq::<HostAction>::empty(),
            final(self).shared.cells == old(self).shared.cells,
            final(self).shared.context == old(self).shared.context,
            final(self).shared.next_menu_id == old(self).shared.next_menu_id,
            final(self).states == old(self).states,
            final(self).current_state == old(self).current_state,
            final(self).transitioning == old(self).transitioning,
            final(self).log == old(self).log,
            final(self).destroyed == old(self).destroyed,
    {
        let mut drained: Vec<HostAction> = Vec::new();
        core::mem::swap(&mut self.shared.actions, &mut drained);
        drained
    }
}

} // verus!
