//! The toggle state machine: the sole owner of the visibility state.
//!
//! Every transition is a function of the current state and one incoming
//! event; effects that the library cannot perform itself (spawning the
//! terminal, signalling a process id) come back to the caller as an
//! [`EngineAction`] to carry out.  Commands for the compositor bridge are
//! sent directly through the stored [`WaylandController`].
//!
//! Each executable transition is pinned to a specification-level transition
//! function; the laws at the end of the module are proved over those.

use vstd::prelude::*;

use crate::process::SpawnResult;
use crate::process::str_eq;
use crate::wayland::ToplevelEvent;
use crate::wayland::WaylandController;

verus! {

/// Command-line intent delivered to a running instance.
#[derive(Debug, Clone)]
pub struct Args {
    pub subcommand: Option<QuakeAction>,
}

/// The two intents a second invocation or an activation can deliver.
#[derive(Debug, Clone, PartialEq, Eq, Structural)]
pub enum QuakeAction {
    Toggle,
    Settings,
}

impl QuakeAction {
    /// The action's wire name, as an activation message spells it.
    pub fn label(&self) -> (r: String)
        ensures
            self is Toggle ==> r@ == "Toggle"@,
            self is Settings ==> r@ == "Settings"@,
    {
        match self {
            QuakeAction::Toggle => String::from_str("Toggle"),
            QuakeAction::Settings => String::from_str("Settings"),
        }
    }

    /// Parses an action's wire name; the inverse of [`Self::label`].
    pub fn parse(s: &str) -> (r: Option<QuakeAction>)
        ensures
            s@ == "Toggle"@ ==> r == Some(QuakeAction::Toggle),
            s@ == "Settings"@ ==> r == Some(QuakeAction::Settings),
            s@ != "Toggle"@ && s@ != "Settings"@ ==> r is None,
    {
        proof {
            reveal_strlit("Toggle");
            reveal_strlit("Settings");
            assert("Toggle"@.len() != "Settings"@.len());
        }
        if str_eq(s, "Toggle") {
            Some(QuakeAction::Toggle)
        } else if str_eq(s, "Settings") {
            Some(QuakeAction::Settings)
        } else {
            None
        }
    }
}

/// The canonical visibility state.  `Idle`: no terminal of ours exists.
/// `WaitingForWindow`: spawned, window not yet adopted.  `Visible` and
/// `Hidden`: the adopted window's last reconciled visibility.
#[derive(Debug, Clone, Copy, PartialEq, Eq, Structural)]
pub enum ToggleState {
    Idle,
    WaitingForWindow,
    Visible,
    Hidden,
}

/// What one transition asks the caller to do, beyond any bridge command the
/// engine already sent itself.
#[derive(Debug, Clone, Copy, PartialEq, Eq, Structural)]
pub enum EngineAction {
    /// Attempt to spawn the terminal and report the outcome through
    /// [`ToggleEngine::spawn_completed`].
    SpawnTerminal,
    /// A `Minimize` command went to the bridge, through the controller
    /// when one is attached; the state flips regardless.
    SendMinimize,
    /// An `Activate` command went to the bridge, under the same terms.
    SendActivate,
    /// Send SIGTERM to this process id, then reap it without blocking.
    TerminateProcess(u32),
    /// Reap this process id without blocking; it may already be gone.
    ReapProcess(u32),
    /// Nothing to do.
    Ignore,
}

/// The toggle state machine with the process it tracks and the handle it
/// sends bridge commands through.
pub struct ToggleEngine {
    pub state: ToggleState,
    pub terminal: Option<SpawnResult>,
    pub controller: Option<WaylandController>,
}

impl ToggleEngine {
    /// A terminal process is held exactly while the machine is away from
    /// `Idle`.
    pub open spec fn wf(&self) -> bool {
        (self.state is Idle) <==> (self.terminal is None)
    }

    /// An engine that tracks nothing and has no bridge yet.
    pub fn new() -> (e: ToggleEngine)
        ensures
            e.state is Idle,
            e.terminal is None,
            e.controller is None,
            e.wf(),
    {
        ToggleEngine { state: ToggleState::Idle, terminal: None, controller: None }
    }
}

/// The `Toggle` row of the transition table: spawn from `Idle`, wait in
/// `WaitingForWindow`, minimize from `Visible`, restore from `Hidden`.
pub open spec fn toggle_transition(e: ToggleEngine) -> (ToggleEngine, EngineAction) {
    match e.state {
        ToggleState::Idle => (e, EngineAction::SpawnTerminal),
        ToggleState::WaitingForWindow => (e, EngineAction::Ignore),
        ToggleState::Visible => (
            ToggleEngine {
                state: ToggleState::Hidden,
                terminal: e.terminal,
                controller: e.controller,
            },
            EngineAction::SendMinimize,
        ),
        ToggleState::Hidden => (
            ToggleEngine {
                state: ToggleState::Visible,
                terminal: e.terminal,
                controller: e.controller,
            },
            EngineAction::SendActivate,
        ),
    }
}

/// The spawn outcome's effect: success adopts the process and waits for its
/// window; failure is non-fatal and leaves the machine `Idle`.
pub open spec fn spawn_transition(e: ToggleEngine, result: Option<SpawnResult>) -> ToggleEngine {
    match result {
        Some(sr) => ToggleEngine {
            state: ToggleState::WaitingForWindow,
            terminal: Some(sr),
            controller: e.controller,
        },
        None => e,
    }
}

/// The bridge-event rows of the transition table.  `Found` resolves a
/// pending wait; `Minimized` and `Activated` reconcile ground truth while a
/// terminal process is held; `Closed` always resets to `Idle`, asking the
/// caller to terminate and reap the held process.
pub open spec fn toplevel_transition(e: ToggleEngine, event: ToplevelEvent) -> (
    ToggleEngine,
    EngineAction,
) {
    match event {
        ToplevelEvent::Ready(c) => (
            ToggleEngine { state: e.state, terminal: e.terminal, controller: Some(c) },
            EngineAction::Ignore,
        ),
        ToplevelEvent::Found => (
            ToggleEngine {
                state: if e.state is WaitingForWindow {
                    ToggleState::Visible
                } else {
                    e.state
                },
                terminal: e.terminal,
                controller: e.controller,
            },
            EngineAction::Ignore,
        ),
        ToplevelEvent::Minimized => (
            ToggleEngine {
                state: if e.terminal is Some {
                    ToggleState::Hidden
                } else {
                    e.state
                },
                terminal: e.terminal,
                controller: e.controller,
            },
            EngineAction::Ignore,
        ),
        ToplevelEvent::Activated => (
            ToggleEngine {
                state: if e.terminal is Some {
                    ToggleState::Visible
                } else {
                    e.state
                },
                terminal: e.terminal,
                controller: e.controller,
            },
            EngineAction::Ignore,
        ),
        ToplevelEvent::Closed => (
            ToggleEngine { state: ToggleState::Idle, terminal: None, controller: e.controller },
            match e.terminal {
                Some(sr) => EngineAction::TerminateProcess(sr.pid),
                None => EngineAction::Ignore,
            },
        ),
    }
}

/// The process-exited row: reap only; the window may well live on under a
/// reparented process id, so neither the state nor the terminal process
/// changes.
pub open spec fn exit_transition(e: ToggleEngine) -> (ToggleEngine, EngineAction) {
    match e.terminal {
        Some(sr) => (e, EngineAction::ReapProcess(sr.pid)),
        None => (e, EngineAction::Ignore),
    }
}

impl ToggleEngine {
    /// A user toggle, re-interpreted by the current state.  From `Visible`
    /// or `Hidden` the matching bridge command is sent before the state
    /// flips; from `Idle` the caller is asked to spawn.
    pub fn handle_toggle(&mut self) -> (a: EngineAction)
        requires
            old(self).wf(),
        ensures
            final(self).wf(),
            *final(self) == toggle_transition(*old(self)).0,
            a == toggle_transition(*old(self)).1,
    {
        match self.state {
            ToggleState::Idle => EngineAction::SpawnTerminal,
            ToggleState::WaitingForWindow => EngineAction::Ignore,
            ToggleState::Visible => {
                if let Some(c) = &self.controller {
                    c.minimize();
                }
                self.state = ToggleState::Hidden;
                EngineAction::SendMinimize
            },
            ToggleState::Hidden => {
                if let Some(c) = &self.controller {
                    c.activate();
                }
                self.state = ToggleState::Visible;
                EngineAction::SendActivate
            },
        }
    }

    /// Reports the outcome of the spawn requested by a toggle from `Idle`.
    pub fn spawn_completed(&mut self, result: Option<SpawnResult>)
        requires
            old(self).wf(),
            old(self).state is Idle,
        ensures
            final(self).wf(),
            *final(self) == spawn_transition(*old(self), result),
    {
        match result {
            Some(sr) => {
                self.terminal = Some(sr);
                self.state = ToggleState::WaitingForWindow;
            },
            None => {},
        }
    }

    /// Consumes one bridge notification.
    pub fn handle_toplevel_event(&mut self, event: ToplevelEvent) -> (a: EngineAction)
        requires
            old(self).wf(),
        ensures
            final(self).wf(),
            *final(self) == toplevel_transition(*old(self), event).0,
            a == toplevel_transition(*old(self), event).1,
    {
        match event {
            ToplevelEvent::Ready(controller) => {
                self.controller = Some(controller);
                EngineAction::Ignore
            },
            ToplevelEvent::Found => {
                if let ToggleState::WaitingForWindow = self.state {
                    self.state = ToggleState::Visible;
                }
                EngineAction::Ignore
            },
            ToplevelEvent::Minimized => {
                if self.terminal.is_some() {
                    self.state = ToggleState::Hidden;
                }
                EngineAction::Ignore
            },
            ToplevelEvent::Activated => {
                if self.terminal.is_some() {
                    self.state = ToggleState::Visible;
                }
                EngineAction::Ignore
            },
            ToplevelEvent::Closed => {
                self.state = ToggleState::Idle;
                match self.terminal.take() {
                    Some(sr) => EngineAction::TerminateProcess(sr.pid),
                    None => EngineAction::Ignore,
                }
            },
        }
    }

    /// Consumes one process-exited notification from the liveness monitor.
    pub fn process_exited(&mut self) -> (a: EngineAction)
        requires
            old(self).wf(),
        ensures
            final(self).wf(),
            *final(self) == exit_transition(*old(self)).0,
            a == exit_transition(*old(self)).1,
    {
        match &self.terminal {
            Some(sr) => EngineAction::ReapProcess(sr.pid),
            None => EngineAction::Ignore,
        }
    }
}

/// Whether an action stands for a command sent to the bridge.
pub open spec fn is_bridge_command(a: EngineAction) -> bool {
    a is SendMinimize || a is SendActivate
}

/// One toggle from `Idle` followed by a failed spawn.
pub open spec fn failed_toggle_round(e: ToggleEngine) -> ToggleEngine {
    spawn_transition(toggle_transition(e).0, None)
}

/// `n` toggles from `Idle`, each followed by a failed spawn.
pub open spec fn failed_toggle_rounds(e: ToggleEngine, n: nat) -> ToggleEngine
    decreases n,
{
    if n == 0 {
        e
    } else {
        failed_toggle_round(failed_toggle_rounds(e, (n - 1) as nat))
    }
}

/// A toggle from `Idle` whose spawn fails leaves the machine exactly as it
/// was, and neither step sends a command to the bridge.
pub proof fn lemma_failed_spawn_keeps_idle(e: ToggleEngine)
    requires
        e.state is Idle,
    ensures
        failed_toggle_round(e) == e,
        !is_bridge_command(toggle_transition(e).1),
{
}

/// Any number of toggles from `Idle`, each with a failed spawn, leaves the
/// machine exactly as it was, and no round of the sequence sends a command
/// to the bridge.
pub proof fn lemma_failed_spawn_sequence_keeps_idle(e: ToggleEngine, n: nat)
    requires
        e.state is Idle,
    ensures
        failed_toggle_rounds(e, n) == e,
        forall|k: nat|
            k < n ==> !is_bridge_command(#[trigger] toggle_transition(
                failed_toggle_rounds(e, k),
            ).1),
    decreases n,
{
    if n > 0 {
        lemma_failed_spawn_sequence_keeps_idle(e, (n - 1) as nat);
    }
    assert forall|k: nat| k < n implies !is_bridge_command(#[trigger] toggle_transition(
        failed_toggle_rounds(e, k),
    ).1) by {
        lemma_failed_spawn_sequence_keeps_idle(e, k);
    }
}

/// A `Closed` event resets any state to `Idle` and clears the terminal
/// process; from a well-formed `Idle` it changes nothing at all.
pub proof fn lemma_closed_resets(e: ToggleEngine)
    ensures
        toplevel_transition(e, ToplevelEvent::Closed).0.state is Idle,
        toplevel_transition(e, ToplevelEvent::Closed).0.terminal is None,
        toplevel_transition(e, ToplevelEvent::Closed).0.wf(),
        e.wf() && e.state is Idle ==> toplevel_transition(e, ToplevelEvent::Closed) == (
            e,
            EngineAction::Ignore,
        ),
{
}

/// A repeated `Minimized` event changes nothing the first one has not
/// already done: the second application is the identity.
pub proof fn lemma_minimized_idempotent(e: ToggleEngine)
    ensures
        ({
            let once = toplevel_transition(e, ToplevelEvent::Minimized).0;
            toplevel_transition(once, ToplevelEvent::Minimized).0 == once
        }),
{
}

/// A repeated `Activated` event is likewise idempotent.
pub proof fn lemma_activated_idempotent(e: ToggleEngine)
    ensures
        ({
            let once = toplevel_transition(e, ToplevelEvent::Activated).0;
            toplevel_transition(once, ToplevelEvent::Activated).0 == once
        }),
{
}

/// A process-exited notification never changes the machine by itself: the
/// state, the terminal process and the controller all stay as they were.
pub proof fn lemma_process_exited_changes_nothing(e: ToggleEngine)
    ensures
        exit_transition(e).0 == e,
        !is_bridge_command(exit_transition(e).1),
{
}

} // verus!
