//! Behavioural core of an interactive lootable object.
//!
//! The crate has three layers. The inventory engine merges an incoming
//! stack of items into a fixed-capacity slot collection, filling existing
//! stacks smallest-first and reporting any leftover. The state-machine
//! engine drives a set of states (idle, hover, inspect) through ticks and
//! input dispatch, guaranteeing exit-before-enter transition ordering.
//! Listener bridges translate host pointer callbacks into updates of
//! shared coordination cells, gated by per-state active flags so that
//! stale callbacks are inert.
//!
//! All interaction with the host (scene objects, menus, pointer events)
//! happens through plain events in and actions out: the machine consumes
//! pointer and tick events and queues [`events::HostAction`] values for
//! the embedding layer to perform.

pub mod bridges;
pub mod cells;
pub mod context;
pub mod events;
pub mod inventory;
pub mod items;
pub mod loot_state;
pub mod machine;
pub mod state;
pub mod states;
