//! Composable interactive tasks.
//!
//! A task renders a tree of interaction elements, consumes user events
//! addressed to those elements, and yields a value through a three-point
//! result lattice. Editors keep the per-element state, shared value cells
//! broadcast changes to bound viewers, and parallel combinators compose two
//! tasks under a selectable merge policy.

pub mod id;
pub mod task_value;
pub mod value;
pub mod html;
pub mod event;
pub mod editor;
pub mod convert;
pub mod choice;
pub mod container;
pub mod share;
pub mod view;
pub mod interact;
pub mod parallel;
pub mod task;
