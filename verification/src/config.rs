//! The configuration record the daemon reads at startup and on change
//! notifications.  Storage, schema versioning and change watching are the
//! configuration system's affair and stay in the binary; the library only
//! fixes the record's shape and its default values.

use vstd::prelude::*;

verus! {

pub const CONFIG_VERSION: u64 = 1;

/// Which output the terminal appears on.
#[derive(Debug, Clone, PartialEq, Eq, Structural)]
pub enum Monitor {
    Focused,
}

/// Which screen edge the terminal drops from.
#[derive(Debug, Clone, PartialEq, Eq, Structural)]
pub enum Position {
    Top,
    Bottom,
}

/// The persisted settings: the terminal command with its extra arguments,
/// and the window's geometry.
#[derive(Debug, Clone, PartialEq)]
pub struct QuakeConfig {
    pub terminal_command: String,
    pub terminal_args: Vec<String>,
    pub height_percent: u32,
    pub width_percent: u32,
    pub monitor: Monitor,
    pub position: Position,
}

impl Default for Monitor {
    fn default() -> (r: Monitor)
        ensures
            r is Focused,
    {
        Monitor::Focused
    }
}

impl Default for Position {
    fn default() -> (r: Position)
        ensures
            r is Top,
    {
        Position::Top
    }
}

impl Default for QuakeConfig {
    fn default() -> (r: QuakeConfig)
        ensures
            r.terminal_command@ == "cosmic-term"@,
            r.terminal_args@ == Seq::<String>::empty(),
            r.height_percent == 40,
            r.width_percent == 100,
            r.monitor is Focused,
            r.position is Top,
    {
        QuakeConfig {
            terminal_command: String::from_str("cosmic-term"),
            terminal_args: Vec::new(),
            height_percent: 40,
            width_percent: 100,
            monitor: Monitor::Focused,
            position: Position::Top,
        }
    }
}

} // verus!
