//! A Monte-Carlo estimator for tabletop skirmishes: it plays many turn-based
//! fights between two groups of combatants and reports how often the left
//! group wins.

pub mod character;
pub mod dnd;
pub mod editor;
pub mod gradient;
pub mod group;
pub mod modification;
pub mod selection;
pub mod simulator;
pub mod stats;
