//! Core logic of a transient, keyboard-driven window-selection overlay for a
//! tiling window manager.
//!
//! The library covers the selection engine: assigning a single-character label
//! to each window of the focused workspace, computing the on-screen position
//! at which each label is anchored, and resolving one keypress into at most
//! one focus action. The surrounding toolkit (overlay rendering, compositor
//! IPC) supplies plain values to these functions and carries their results
//! out; it holds no selection logic of its own.

pub mod geometry;
pub mod label;
pub mod overlay;
pub mod selection;
