//! Event listener bridges.
//!
//! The host's event subscription model has no unsubscribe primitive, so
//! each bridge holds only the handle of its state's cell set and checks
//! the active flag before acting: a callback delivered after the state
//! exited changes nothing. The machine dispatches host callbacks to the
//! bridges of every state that has connected them.

use vstd::prelude::*;

use crate::cells::{CellArena, CellSet};
use crate::events::InputEvent;
use crate::loot_state::LootState;

verus! {

/// Error of the idle state's bridge: its cell set was not available.
#[derive(Debug, Clone, Copy, PartialEq, Eq, Structural)]
pub enum LootMenuIdleStateError {
    ActiveFlag,
}

impl LootMenuIdleStateError {
    /// A short description, for the embedding layer's logs.
    pub fn message(&self) -> (r: String) {
        match self {
            LootMenuIdleStateError::ActiveFlag => "error using the active flag".to_string(),
        }
    }
}

/// Error of the hover state's bridge: its cell set was not available.
#[derive(Debug, Clone, Copy, PartialEq, Eq, Structural)]
pub enum LootMenuHoverStateError {
    ActiveFlag,
}

impl LootMenuHoverStateError {
    /// A short description, for the embedding layer's logs.
    pub fn message(&self) -> (r: String) {
        match self {
            LootMenuHoverStateError::ActiveFlag => "error using the active flag".to_string(),
        }
    }
}

/// Error of the inspect state's bridge and menu handling.
#[derive(Debug, Clone, Copy, PartialEq, Eq, Structural)]
pub enum InspectError {
    /// The cell set was not available.
    ActiveFlag,
    /// The pointer-hover flag was not available.
    HoveringFlag,
    /// No menu was open although one was expected.
    MenuShouldNotBeNone,
}

impl InspectError {
    /// A short description, for the embedding layer's logs.
    pub fn message(&self) -> (r: String) {
        match self {
            InspectError::ActiveFlag => "error using the active flag".to_string(),
            InspectError::HoveringFlag => "error using the hovering flag".to_string(),
            InspectError::MenuShouldNotBeNone => "the menu was missing".to_string(),
        }
    }
}

/// Translates pointer-enter callbacks for the idle state.
#[derive(Debug, Clone, Copy, PartialEq, Eq, Structural)]
pub struct IdleListener {
    pub cells: usize,
}

impl IdleListener {
    /// The pointer entered the collider: request Hover — but only while
    /// the idle state is active. A delivery after the state exited (its
    /// active flag cleared) produces no transition request.
    pub fn mouse_entered(&self, cells: &mut CellArena) -> (r: Result<
        (),
        LootMenuIdleStateError,
    >)
        ensures
            match r {
                Result::Ok(()) => {
                    &&& old(cells).live(self.cells as int)
                    &&& old(cells)@[self.cells as int].active ==> final(cells)@ == old(
                        cells,
                    )@.update(
                        self.cells as int,
                        CellSet {
                            next_state: Some(LootState::Hover),
                            ..old(cells)@[self.cells as int]
                        },
                    )
                    &&& !old(cells)@[self.cells as int].active ==> *final(cells) == *old(cells)
                },
                Result::Err(e) => !old(cells).live(self.cells as int) && *final(cells) == *old(
                    cells,
                ) && e == LootMenuIdleStateError::ActiveFlag,
            },
    {
        let cell = match cells.try_read(self.cells) {
            Ok(c) => c,
            Err(_) => {
                return Err(LootMenuIdleStateError::ActiveFlag);
            },
        };
        if !cell.active {
            return Ok(());
        }
        let _ = cells.try_set_next(self.cells, Some(LootState::Hover));
        Ok(())
    }
}

/// Translates pointer-release and pointer-exit callbacks for the hover
/// state.
#[derive(Debug, Clone, Copy, PartialEq, Eq, Structural)]
pub struct HoverListener {
    pub cells: usize,
}

impl HoverListener {
    /// Raw input on the collider: a released mouse button requests
    /// Inspect — only while the hover state is active.
    pub fn input_event(&self, cells: &mut CellArena, event: InputEvent) -> (r: Result<
        (),
        LootMenuHoverStateError,
    >)
        ensures
            match r {
                Result::Ok(()) => {
                    &&& old(cells).live(self.cells as int)
                    &&& (old(cells)@[self.cells as int].active && event == (InputEvent::MouseButton {
                        released: true,
                    })) ==> final(cells)@ == old(cells)@.update(
                        self.cells as int,
                        CellSet {
                            next_state: Some(LootState::Inspect),
                            ..old(cells)@[self.cells as int]
                        },
                    )
                    &&& !(old(cells)@[self.cells as int].active && event
                        == (InputEvent::MouseButton { released: true })) ==> *final(cells) == *old(
                        cells,
                    )
                },
                Result::Err(e) => !old(cells).live(self.cells as int) && *final(cells) == *old(
                    cells,
                ) && e == LootMenuHoverStateError::ActiveFlag,
            },
    {
        let cell = match cells.try_read(self.cells) {
            Ok(c) => c,
            Err(_) => {
                return Err(LootMenuHoverStateError::ActiveFlag);
            },
        };
        if !cell.active {
            return Ok(());
        }
        let released: bool = match event {
            InputEvent::MouseButton { released } => released,
            InputEvent::Other => false,
        };
        if released {
            let _ = cells.try_set_next(self.cells, Some(LootState::Inspect));
        }
        Ok(())
    }

    /// The pointer left the collider: request Idle — only while the
    /// hover state is active. A delivery after the state exited produces
    /// no transition request.
    pub fn mouse_exited(&self, cells: &mut CellArena) -> (r: Result<(), LootMenuHoverStateError>)
        ensures
            match r {
                Result::Ok(()) => {
                    &&& old(cells).live(self.cells as int)
                    &&& old(cells)@[self.cells as int].active ==> final(cells)@ == old(
                        cells,
                    )@.update(
                        self.cells as int,
                        CellSet {
                            next_state: Some(LootState::Idle),
                            ..old(cells)@[self.cells as int]
                        },
                    )
                    &&& !old(cells)@[self.cells as int].active ==> *final(cells) == *old(cells)
                },
                Result::Err(e) => !old(cells).live(self.cells as int) && *final(cells) == *old(
                    cells,
                ) && e == LootMenuHoverStateError::ActiveFlag,
            },
    {
        let cell = match cells.try_read(self.cells) {
            Ok(c) => c,
            Err(_) => {
                return Err(LootMenuHoverStateError::ActiveFlag);
            },
        };
        if !cell.active {
            return Ok(());
        }
        let _ = cells.try_set_next(self.cells, Some(LootState::Idle));
        Ok(())
    }
}

/// Tracks whether the pointer rests over the loot source for the inspect
/// state, and re-arms menu creation when it returns.
#[derive(Debug, Clone, Copy, PartialEq, Eq, Structural)]
pub struct InspectListener {
    pub cells: usize,
}

impl InspectListener {
    /// The pointer entered the collider: record the hover and ask for a
    /// menu (the tick loop builds one only if none is open).
    pub fn mouse_entered(&self, cells: &mut CellArena) -> (r: Result<(), InspectError>)
        ensures
            match r {
                Result::Ok(()) => old(cells).live(self.cells as int) && final(cells)@ == old(
                    cells,
                )@.update(
                    self.cells as int,
                    CellSet {
                        pointer_hovering: true,
                        menu_create_requested: true,
                        ..old(cells)@[self.cells as int]
                    },
                ),
                Result::Err(e) => !old(cells).live(self.cells as int) && *final(cells) == *old(
                    cells,
                ) && e == InspectError::HoveringFlag,
            },
    {
        let ghost pre = cells@;
        match cells.try_set_hovering(self.cells, true) {
            Ok(()) => {},
            Err(_) => {
                return Err(InspectError::HoveringFlag);
            },
        }
        let _ = cells.try_set_trigger(self.cells, true);
        proof {
            assert(cells@ =~= pre.update(
                self.cells as int,
                CellSet {
                    pointer_hovering: true,
                    menu_create_requested: true,
                    ..pre[self.cells as int]
                },
            ));
        }
        Ok(())
    }

    /// The pointer left the collider: clear the hover flag.
    pub fn mouse_exited(&self, cells: &mut CellArena) -> (r: Result<(), InspectError>)
        ensures
            match r {
                Result::Ok(()) => old(cells).live(self.cells as int) && final(cells)@ == old(
                    cells,
                )@.update(
                    self.cells as int,
                    CellSet { pointer_hovering: false, ..old(cells)@[self.cells as int] },
                ),
                Result::Err(e) => !old(cells).live(self.cells as int) && *final(cells) == *old(
                    cells,
                ) && e == InspectError::HoveringFlag,
            },
    {
        match cells.try_set_hovering(self.cells, false) {
            Ok(()) => Ok(()),
            Err(_) => Err(InspectError::HoveringFlag),
        }
    }

    /// A menu row was activated: close the menu and clear the active
    /// flag so that stale callbacks stay inert, and request the next
    /// state — Destroy when nothing is left to loot, Idle otherwise.
    pub fn option_clicked(&self, cells: &mut CellArena, remaining_empty: bool) -> (r: Result<
        u64,
        InspectError,
    >)
        ensures
            match r {
                Result::Ok(menu) => {
                    &&& old(cells).live(self.cells as int)
                    &&& old(cells)@[self.cells as int].menu == Some(menu)
                    &&& final(cells)@ == old(cells)@.update(
                        self.cells as int,
                        CellSet {
                            active: false,
                            menu: None,
                            next_state: Some(
                                if remaining_empty {
                                    LootState::Destroy
                                } else {
                                    LootState::Idle
                                },
                            ),
                            ..old(cells)@[self.cells as int]
                        },
                    )
                },
                Result::Err(e) => *final(cells) == *old(cells) && match e {
                    InspectError::ActiveFlag => !old(cells).live(self.cells as int),
                    InspectError::MenuShouldNotBeNone => old(cells).live(self.cells as int) && old(
                        cells,
                    )@[self.cells as int].menu is None,
                    InspectError::HoveringFlag => false,
                },
            },
    {
        let cell = match cells.try_read(self.cells) {
            Ok(c) => c,
            Err(_) => {
                return Err(InspectError::ActiveFlag);
            },
        };
        let menu: u64 = match cell.menu {
            Some(m) => m,
            None => {
                return Err(InspectError::MenuShouldNotBeNone);
            },
        };
        let ghost pre = cells@;
        let _ = cells.try_set_active(self.cells, false);
        let _ = cells.try_set_menu(self.cells, None);
        let next: LootState = if remaining_empty {
            LootState::Destroy
        } else {
            LootState::Idle
        };
        let _ = cells.try_set_next(self.cells, Some(next));
        proof {
            assert(cells@ =~= pre.update(
                self.cells as int,
                CellSet {
                    active: false,
                    menu: None,
                    next_state: Some(next),
                    ..pre[self.cells as int]
                },
            ));
        }
        Ok(menu)
    }
}

} // verus!
