//! The compositor bridge's decision core.
//!
//! The bridge thread owns the protocol connection and all protocol handles;
//! the binary runs its loop.  What the library holds is the part that
//! decides: which toplevel to adopt, when an update is an edge worth
//! reporting, what a queued command amounts to, and the channel handle the
//! state machine uses to reach the bridge.  Protocol handles are referred to
//! by an opaque numeric key the loop assigns to each toplevel.

use vstd::prelude::*;

use crate::process::str_eq;

verus! {

/// Notifications the bridge produces for the state machine, in the order
/// the compositor produced them.
#[derive(Debug, Clone)]
pub enum ToplevelEvent {
    /// The bridge thread is up; carries the handle for sending commands.
    Ready(WaylandController),
    /// A toplevel matching the target identifier was adopted.
    Found,
    /// The adopted toplevel flipped to minimized.
    Minimized,
    /// The adopted toplevel flipped out of minimized and is activated.
    Activated,
    /// The adopted toplevel closed.
    Closed,
}

/// Commands the state machine sends to the bridge thread.
#[derive(Debug, Clone, PartialEq, Eq, Structural)]
pub enum WaylandCommand {
    Minimize,
    Activate,
}

/// Declares `std::sync::mpsc::Sender` so a controller can hold one; the
/// value stays opaque and everything known of it stands on the two items
/// below.
#[verifier::external_type_specification]
#[verifier::external_body]
#[verifier::reject_recursive_types(T)]
pub struct ExSender<T>(std::sync::mpsc::Sender<T>);

/// Relies on `std::sync::mpsc::Sender::clone`: the clone is another sending
/// end of the same channel.  Nothing is claimed of the value; cloning a
/// controller only duplicates the handle.
pub assume_specification<T>[ <std::sync::mpsc::Sender<T> as Clone>::clone ](
    tx: &std::sync::mpsc::Sender<T>,
) -> std::sync::mpsc::Sender<T>;

/// Relies on `std::sync::mpsc::Sender::send`: it queues the value for the
/// receiving end and its result only reports whether the receiver is gone,
/// which the caller deliberately ignores.
#[verifier::external_body]
fn send_command(tx: &std::sync::mpsc::Sender<WaylandCommand>, cmd: WaylandCommand) {
    let _ = tx.send(cmd);
}

/// Cloneable handle wrapping the sending end of the bridge's command
/// channel.  Holding one does not imply a tracked window exists.
#[derive(Debug, Clone)]
pub struct WaylandController {
    cmd_tx: std::sync::mpsc::Sender<WaylandCommand>,
}

impl WaylandController {
    /// Wraps the sending end of the bridge's command channel.
    pub fn new(cmd_tx: std::sync::mpsc::Sender<WaylandCommand>) -> (r: WaylandController) {
        WaylandController { cmd_tx }
    }

    /// Asks the bridge to minimize the adopted toplevel.
    pub fn minimize(&self) {
        send_command(&self.cmd_tx, WaylandCommand::Minimize);
    }

    /// Asks the bridge to restore and focus the adopted toplevel.
    pub fn activate(&self) {
        send_command(&self.cmd_tx, WaylandCommand::Activate);
    }
}

/// What the bridge does with one queued command, given what it currently
/// holds: no adopted toplevel or no management capability make the command
/// a reported no-op, otherwise the protocol request to perform.
#[derive(Debug, Clone, Copy, PartialEq, Eq, Structural)]
pub enum CommandPlan {
    /// Nothing is adopted; warn and drop the command.
    NoToplevel,
    /// The management capability was not advertised; warn and drop.
    NoManager,
    /// Ask the compositor to set the toplevel minimized.
    SetMinimized,
    /// Ask the compositor to unset minimized, then activate on the first
    /// known seat if one exists.
    UnsetMinimizedThenActivate { with_seat: bool },
}

/// The bridge's dispatch rule for a queued command.
pub open spec fn command_plan_for(
    has_handle: bool,
    has_manager: bool,
    has_seat: bool,
    cmd: WaylandCommand,
) -> CommandPlan {
    if !has_handle {
        CommandPlan::NoToplevel
    } else if !has_manager {
        CommandPlan::NoManager
    } else {
        match cmd {
            WaylandCommand::Minimize => CommandPlan::SetMinimized,
            WaylandCommand::Activate => CommandPlan::UnsetMinimizedThenActivate {
                with_seat: has_seat,
            },
        }
    }
}

/// Decides what a queued command amounts to; the loop performs the
/// resulting protocol requests.
pub fn plan_command(has_handle: bool, has_manager: bool, has_seat: bool, cmd: &WaylandCommand) -> (p:
    CommandPlan)
    ensures
        p == command_plan_for(has_handle, has_manager, has_seat, *cmd),
{
    if !has_handle {
        CommandPlan::NoToplevel
    } else if !has_manager {
        CommandPlan::NoManager
    } else {
        match cmd {
            WaylandCommand::Minimize => CommandPlan::SetMinimized,
            WaylandCommand::Activate => CommandPlan::UnsetMinimizedThenActivate {
                with_seat: has_seat,
            },
        }
    }
}

/// The bridge's matching and edge-detection state: the identifier it looks
/// for, the key of the adopted toplevel, and the last minimized flag it
/// observed on it.
pub struct ToplevelTracker {
    pub target_app_id: String,
    pub adopted: Option<u64>,
    pub last_minimized: Option<bool>,
}

impl ToplevelTracker {
    /// A minimized flag is only remembered while a toplevel is adopted.
    pub open spec fn wf(&self) -> bool {
        self.adopted is None ==> self.last_minimized is None
    }

    /// A tracker that has adopted nothing yet.
    pub fn new(target_app_id: String) -> (t: ToplevelTracker)
        ensures
            t.target_app_id == target_app_id,
            t.adopted is None,
            t.last_minimized is None,
            t.wf(),
    {
        ToplevelTracker { target_app_id, adopted: None, last_minimized: None }
    }
}

/// Adoption rule: a new toplevel is adopted exactly when its identifier
/// matches the target and nothing is adopted yet; the first match wins.
pub open spec fn adopt_transition(t: ToplevelTracker, handle: u64, app_id: Seq<char>) -> (
    ToplevelTracker,
    Option<ToplevelEvent>,
) {
    if t.adopted is None && app_id == t.target_app_id@ {
        (
            ToplevelTracker {
                target_app_id: t.target_app_id,
                adopted: Some(handle),
                last_minimized: None,
            },
            Some(ToplevelEvent::Found),
        )
    } else {
        (t, None)
    }
}

/// Edge-detection rule: updates to anything but the adopted toplevel are
/// ignored; an unchanged minimized flag is suppressed; a flip to minimized
/// reports `Minimized`, a flip out of it reports `Activated` only when the
/// activated flag is set.
pub open spec fn update_transition(
    t: ToplevelTracker,
    handle: u64,
    minimized: bool,
    activated: bool,
) -> (ToplevelTracker, Option<ToplevelEvent>) {
    if t.adopted == Some(handle) {
        if t.last_minimized == Some(minimized) {
            (t, None)
        } else {
            (
                ToplevelTracker {
                    target_app_id: t.target_app_id,
                    adopted: t.adopted,
                    last_minimized: Some(minimized),
                },
                if minimized {
                    Some(ToplevelEvent::Minimized)
                } else if activated {
                    Some(ToplevelEvent::Activated)
                } else {
                    None
                },
            )
        }
    } else {
        (t, None)
    }
}

/// Closure rule: only the adopted toplevel's closure clears the tracker and
/// reports `Closed`; foreign closures are ignored.
pub open spec fn closed_transition(t: ToplevelTracker, handle: u64) -> (
    ToplevelTracker,
    Option<ToplevelEvent>,
) {
    if t.adopted == Some(handle) {
        (
            ToplevelTracker { target_app_id: t.target_app_id, adopted: None, last_minimized: None },
            Some(ToplevelEvent::Closed),
        )
    } else {
        (t, None)
    }
}

impl ToplevelTracker {
    /// A toplevel appeared: adopt it when it matches and nothing is adopted.
    pub fn new_toplevel(&mut self, handle: u64, app_id: &str) -> (emit: Option<ToplevelEvent>)
        requires
            old(self).wf(),
        ensures
            final(self).wf(),
            *final(self) == adopt_transition(*old(self), handle, app_id@).0,
            emit == adopt_transition(*old(self), handle, app_id@).1,
    {
        if self.adopted.is_none() && str_eq(app_id, self.target_app_id.as_str()) {
            self.adopted = Some(handle);
            self.last_minimized = None;
            Some(ToplevelEvent::Found)
        } else {
            None
        }
    }

    /// A toplevel's state changed: report an edge of the adopted one.
    pub fn update_toplevel(&mut self, handle: u64, minimized: bool, activated: bool) -> (emit:
        Option<ToplevelEvent>)
        requires
            old(self).wf(),
        ensures
            final(self).wf(),
            *final(self) == update_transition(*old(self), handle, minimized, activated).0,
            emit == update_transition(*old(self), handle, minimized, activated).1,
    {
        let ours = match self.adopted {
            Some(h) => h == handle,
            None => false,
        };
        if !ours {
            return None;
        }
        let unchanged = match self.last_minimized {
            Some(m) => m == minimized,
            None => false,
        };
        if unchanged {
            return None;
        }
        self.last_minimized = Some(minimized);
        if minimized {
            Some(ToplevelEvent::Minimized)
        } else if activated {
            Some(ToplevelEvent::Activated)
        } else {
            None
        }
    }

    /// A toplevel closed: clear the tracker when it was ours.
    pub fn toplevel_closed(&mut self, handle: u64) -> (emit: Option<ToplevelEvent>)
        requires
            old(self).wf(),
        ensures
            final(self).wf(),
            *final(self) == closed_transition(*old(self), handle).0,
            emit == closed_transition(*old(self), handle).1,
    {
        let ours = match self.adopted {
            Some(h) => h == handle,
            None => false,
        };
        if ours {
            self.adopted = None;
            self.last_minimized = None;
            Some(ToplevelEvent::Closed)
        } else {
            None
        }
    }
}

} // verus!
