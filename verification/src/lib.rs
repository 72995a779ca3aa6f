//! A verified scrolling and selection engine for list- and table-style
//! terminal panels.
//!
//! The engine owns a logical selected index over a counted (but not stored)
//! list of items, a cached viewport window start with minimal-motion
//! recomputation, a chorded-key shortcut matcher, and the routing of keyboard
//! and mouse input into navigation operations together with a redraw
//! decision. It performs no I/O: the host hands it plain events and geometry
//! and reads back the selection, the window start, and the visual offset.

pub mod chord;
pub mod event;
pub mod geometry;
pub mod scroll;
