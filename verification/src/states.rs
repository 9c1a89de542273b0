//! The concrete states of the lootable-object machine.

pub mod hover;
pub mod idle;
pub mod inspect;
