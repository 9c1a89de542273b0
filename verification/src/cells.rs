//! Shared coordination cells.
//!
//! Each live state instance owns one [`CellSet`] inside a [`CellArena`]
//! held by the machine; the state and its listener bridges address it
//! through a handle. Both the tick loop and asynchronously delivered
//! host callbacks read and write these cells, so every access goes
//! through a fail-soft API: an access through a stale or released handle
//! returns an error and changes nothing, it never panics.

use vstd::prelude::*;

use crate::loot_state::LootState;

verus! {

/// The coordination cells of one state instance: the recorded transition
/// request, the flag that keeps a non-revocable event subscription
/// inert after the state exited, and — used by the inspect state only —
/// the menu handle, the pointer-hover flag and the menu-creation flag.
#[derive(Debug, Clone, Copy, PartialEq, Eq, Structural)]
pub struct CellSet {
    pub next_state: Option<LootState>,
    pub active: bool,
    pub menu: Option<u64>,
    pub pointer_hovering: bool,
    pub menu_create_requested: bool,
    pub in_use: bool,
}

/// A cell access failed: the handle does not name a live cell set.
#[derive(Debug, Clone, Copy, PartialEq, Eq, Structural)]
pub enum CellError {
    Unavailable,
}

impl CellError {
    /// A short description, for the embedding layer's logs.
    pub fn message(&self) -> (r: String) {
        match self {
            CellError::Unavailable => "the coordination cells are not available".to_string(),
        }
    }
}

/// The arena of cell sets, owned by the machine. Handles are indices;
/// a released set keeps its slot (handles stay stable) but refuses
/// further access.
#[derive(Debug)]
pub struct CellArena {
    pub sets: Vec<CellSet>,
}

impl View for CellArena {
    type V = Seq<CellSet>;

    open spec fn view(&self) -> Seq<CellSet> {
        self.sets@
    }
}

impl CellArena {
    /// The handle names a cell set that has not been released.
    pub open spec fn live(self, h: int) -> bool {
        0 <= h < self@.len() && self@[h].in_use
    }

    pub fn new() -> (r: Self)
        ensures
            r@.len() == 0,
    {
        CellArena { sets: Vec::new() }
    }

    /// Allocate a fresh cell set and return its handle.
    pub fn allocate(&mut self) -> (h: usize)
        ensures
            h == old(self)@.len(),
            final(self)@ == old(self)@.push(
                CellSet {
                    next_state: None,
                    active: false,
                    menu: None,
                    pointer_hovering: false,
                    menu_create_requested: false,
                    in_use: true,
                },
            ),
    {
        let h: usize = self.sets.len();
        self.sets.push(
            CellSet {
                next_state: None,
                active: false,
                menu: None,
                pointer_hovering: false,
                menu_create_requested: false,
                in_use: true,
            },
        );
        h
    }

    /// Read a copy of the cell set behind `h`, if it is live.
    pub fn try_read(&self, h: usize) -> (r: Result<CellSet, CellError>)
        ensures
            match r {
                Result::Ok(c) => self.live(h as int) && c == self@[h as int],
                Result::Err(e) => !self.live(h as int) && e == CellError::Unavailable,
            },
    {
        if h < self.sets.len() && self.sets[h].in_use {
            Ok(self.sets[h])
        } else {
            Err(CellError::Unavailable)
        }
    }

    /// Record a transition request.
    pub fn try_set_next(&mut self, h: usize, v: Option<LootState>) -> (r: Result<(), CellError>)
        ensures
            match r {
                Result::Ok(()) => old(self).live(h as int) && final(self)@ == old(self)@.update(
                    h as int,
                    CellSet { next_state: v, ..old(self)@[h as int] },
                ),
                Result::Err(e) => !old(self).live(h as int) && *final(self) == *old(self) && e
                    == CellError::Unavailable,
            },
    {
        if h < self.sets.len() && self.sets[h].in_use {
            self.sets[h].next_state = v;
            Ok(())
        } else {
            Err(CellError::Unavailable)
        }
    }

    /// Set the active flag.
    pub fn try_set_active(&mut self, h: usize, v: bool) -> (r: Result<(), CellError>)
        ensures
            match r {
                Result::Ok(()) => old(self).live(h as int) && final(self)@ == old(self)@.update(
                    h as int,
                    CellSet { active: v, ..old(self)@[h as int] },
                ),
                Result::Err(e) => !old(self).live(h as int) && *final(self) == *old(self) && e
                    == CellError::Unavailable,
            },
    {
        if h < self.sets.len() && self.sets[h].in_use {
            self.sets[h].active = v;
            Ok(())
        } else {
            Err(CellError::Unavailable)
        }
    }

    /// Set the menu handle cell.
    pub fn try_set_menu(&mut self, h: usize, v: Option<u64>) -> (r: Result<(), CellError>)
        ensures
            match r {
                Result::Ok(()) => old(self).live(h as int) && final(self)@ == old(self)@.update(
                    h as int,
                    CellSet { menu: v, ..old(self)@[h as int] },
                ),
                Result::Err(e) => !old(self).live(h as int) && *final(self) == *old(self) && e
                    == CellError::Unavailable,
            },
    {
        if h < self.sets.len() && self.sets[h].in_use {
            self.sets[h].menu = v;
            Ok(())
        } else {
            Err(CellError::Unavailable)
        }
    }

    /// Set the pointer-hover flag.
    pub fn try_set_hovering(&mut self, h: usize, v: bool) -> (r: Result<(), CellError>)
        ensures
            match r {
                Result::Ok(()) => old(self).live(h as int) && final(self)@ == old(self)@.update(
                    h as int,
                    CellSet { pointer_hovering: v, ..old(self)@[h as int] },
                ),
                Result::Err(e) => !old(self).live(h as int) && *final(self) == *old(self) && e
                    == CellError::Unavailable,
            },
    {
        if h < self.sets.len() && self.sets[h].in_use {
            self.sets[h].pointer_hovering = v;
            Ok(())
        } else {
            Err(CellError::Unavailable)
        }
    }

    /// Set the menu-creation flag.
    pub fn try_set_trigger(&mut self, h: usize, v: bool) -> (r: Result<(), CellError>)
        ensures
            match r {
                Result::Ok(()) => old(self).live(h as int) && final(self)@ == old(self)@.update(
                    h as int,
                    CellSet { menu_create_requested: v, ..old(self)@[h as int] },
                ),
                Result::Err(e) => !old(self).live(h as int) && *final(self) == *old(self) && e
                    == CellError::Unavailable,
            },
    {
        if h < self.sets.len() && self.sets[h].in_use {
            self.sets[h].menu_create_requested = v;
            Ok(())
        } else {
            Err(CellError::Unavailable)
        }
    }

    /// Release the cell set behind `h`: its values reset and every later
    /// access through the handle fails softly.
    pub fn release(&mut self, h: usize)
        ensures
            old(self).live(h as int) ==> final(self)@ == old(self)@.update(
                h as int,
                CellSet {
                    next_state: None,
                    active: false,
                    menu: None,
                    pointer_hovering: false,
                    menu_create_requested: false,
                    in_use: false,
                },
            ),
            !old(self).live(h as int) ==> *final(self) == *old(self),
    {
        if h < self.sets.len() && self.sets[h].in_use {
            self.sets[h] = CellSet {
                next_state: None,
                active: false,
                menu: None,
                pointer_hovering: false,
                menu_create_requested: false,
                in_use: false,
            };
        }
    }
}

} // verus!
