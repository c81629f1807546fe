//! The bridge's adoption, edge-detection and command-dispatch rules.

use std::sync::mpsc;

use cosmic_ext_quake_terminal::wayland::plan_command;
use cosmic_ext_quake_terminal::wayland::CommandPlan;
use cosmic_ext_quake_terminal::wayland::ToplevelEvent;
use cosmic_ext_quake_terminal::wayland::ToplevelTracker;
use cosmic_ext_quake_terminal::wayland::WaylandCommand;
use cosmic_ext_quake_terminal::wayland::WaylandController;

#[test]
fn first_matching_toplevel_wins_until_it_closes() {
    let mut tracker = ToplevelTracker::new("X".to_string());

    let emit = tracker.new_toplevel(1, "X");
    assert!(matches!(emit, Some(ToplevelEvent::Found)));
    assert_eq!(tracker.adopted, Some(1));

    // A second toplevel with the same identifier is ignored.
    let emit = tracker.new_toplevel(2, "X");
    assert!(emit.is_none());
    assert_eq!(tracker.adopted, Some(1));

    // Updates to the second toplevel are ignored.
    let emit = tracker.update_toplevel(2, true, false);
    assert!(emit.is_none());

    // Updates to the first are processed.
    let emit = tracker.update_toplevel(1, true, false);
    assert!(matches!(emit, Some(ToplevelEvent::Minimized)));

    // The second one's closure is not ours.
    let emit = tracker.toplevel_closed(2);
    assert!(emit.is_none());
    assert_eq!(tracker.adopted, Some(1));

    // Once the first closes, the identifier can be matched again.
    let emit = tracker.toplevel_closed(1);
    assert!(matches!(emit, Some(ToplevelEvent::Closed)));
    assert!(tracker.adopted.is_none());

    let emit = tracker.new_toplevel(2, "X");
    assert!(matches!(emit, Some(ToplevelEvent::Found)));
    assert_eq!(tracker.adopted, Some(2));
}

#[test]
fn non_matching_identifiers_are_never_adopted() {
    let mut tracker = ToplevelTracker::new("X".to_string());
    let emit = tracker.new_toplevel(1, "Y");
    assert!(emit.is_none());
    assert!(tracker.adopted.is_none());

    let emit = tracker.update_toplevel(1, true, false);
    assert!(emit.is_none());
    let emit = tracker.toplevel_closed(1);
    assert!(emit.is_none());
}

#[test]
fn repeated_flags_are_suppressed_as_non_edges() {
    let mut tracker = ToplevelTracker::new("X".to_string());
    tracker.new_toplevel(1, "X");

    let emit = tracker.update_toplevel(1, true, false);
    assert!(matches!(emit, Some(ToplevelEvent::Minimized)));
    let emit = tracker.update_toplevel(1, true, false);
    assert!(emit.is_none());
    let emit = tracker.update_toplevel(1, true, true);
    assert!(emit.is_none());

    // Leaving minimized without being activated is an edge with nothing
    // to report.
    let emit = tracker.update_toplevel(1, false, false);
    assert!(emit.is_none());
    let emit = tracker.update_toplevel(1, true, false);
    assert!(matches!(emit, Some(ToplevelEvent::Minimized)));
    let emit = tracker.update_toplevel(1, false, true);
    assert!(matches!(emit, Some(ToplevelEvent::Activated)));
}

#[test]
fn adoption_resets_edge_tracking() {
    let mut tracker = ToplevelTracker::new("X".to_string());
    tracker.new_toplevel(1, "X");
    tracker.update_toplevel(1, false, true);
    tracker.toplevel_closed(1);

    // After a fresh adoption the first observation is always an edge.
    tracker.new_toplevel(2, "X");
    let emit = tracker.update_toplevel(2, false, true);
    assert!(matches!(emit, Some(ToplevelEvent::Activated)));
}

#[test]
fn command_plans_cover_every_absence() {
    let plan = plan_command(false, true, true, &WaylandCommand::Minimize);
    assert_eq!(plan, CommandPlan::NoToplevel);
    let plan = plan_command(true, false, true, &WaylandCommand::Activate);
    assert_eq!(plan, CommandPlan::NoManager);
    let plan = plan_command(true, true, false, &WaylandCommand::Minimize);
    assert_eq!(plan, CommandPlan::SetMinimized);
    let plan = plan_command(true, true, true, &WaylandCommand::Activate);
    assert_eq!(plan, CommandPlan::UnsetMinimizedThenActivate { with_seat: true });
    let plan = plan_command(true, true, false, &WaylandCommand::Activate);
    assert_eq!(plan, CommandPlan::UnsetMinimizedThenActivate { with_seat: false });
}

#[test]
fn controller_delivers_commands_in_send_order() {
    let (tx, rx) = mpsc::channel();
    let controller = WaylandController::new(tx);
    let clone = controller.clone();

    controller.minimize();
    clone.activate();
    controller.activate();

    assert_eq!(rx.try_recv(), Ok(WaylandCommand::Minimize));
    assert_eq!(rx.try_recv(), Ok(WaylandCommand::Activate));
    assert_eq!(rx.try_recv(), Ok(WaylandCommand::Activate));
    assert!(rx.try_recv().is_err());
}
