//! Core of a quake-style drop-down terminal for a Wayland desktop.
//!
//! The library holds the parts that decide: the toggle state machine that
//! reconciles user toggles, compositor notifications and process liveness
//! into one visibility state; the per-terminal argument table that fixes the
//! window identifier a spawned terminal will register; and the bridge-side
//! matching and edge detection that adopt exactly one toplevel and translate
//! its updates into high-level events.  Spawning processes, signalling them,
//! and the compositor connection itself are performed by the surrounding
//! binary, driven by the actions these functions return.

pub mod app;
pub mod config;
pub mod process;
pub mod wayland;
