use hourglass_control::hourglass_state::HourglassState;
use hourglass_control::lifecycle::{Directive, Lifecycle};

#[test]
fn the_loop_starts_running() {
    assert_eq!(Lifecycle::new(), Lifecycle::Running);
    assert!(!Lifecycle::new().is_stopped());
}

#[test]
fn a_running_loop_observes_ordinary_snapshots() {
    let snapshot = HourglassState::new(true, 1260, false);
    let (state, directive) = Lifecycle::Running.receive(snapshot);
    assert_eq!(state, Lifecycle::Running);
    assert_eq!(directive, Directive::Observe(snapshot));
}

#[test]
fn a_termination_snapshot_starts_draining() {
    let snapshot = HourglassState::new(true, 1260, true);
    let (state, directive) = Lifecycle::Running.receive(snapshot);
    assert_eq!(state, Lifecycle::Draining);
    assert_eq!(directive, Directive::StopListener);
}

#[test]
fn draining_ends_when_the_listener_has_stopped() {
    assert_eq!(Lifecycle::Draining.listener_stopped(), Lifecycle::Stopped);
    assert!(Lifecycle::Draining.listener_stopped().is_stopped());
    assert_eq!(Lifecycle::Running.listener_stopped(), Lifecycle::Running);
    assert_eq!(Lifecycle::Stopped.listener_stopped(), Lifecycle::Stopped);
}

#[test]
fn snapshots_after_termination_are_ignored() {
    let ordinary = HourglassState::new(false, 1200, false);
    let last = HourglassState::new(false, 1200, true);
    assert_eq!(Lifecycle::Draining.receive(ordinary), (Lifecycle::Draining, Directive::Ignore));
    assert_eq!(Lifecycle::Draining.receive(last), (Lifecycle::Draining, Directive::Ignore));
    assert_eq!(Lifecycle::Stopped.receive(ordinary), (Lifecycle::Stopped, Directive::Ignore));
    assert_eq!(Lifecycle::Stopped.receive(last), (Lifecycle::Stopped, Directive::Ignore));
}

#[test]
fn the_listener_is_stopped_once_over_a_whole_run() {
    let snapshots = [
        HourglassState::new(true, 1200, false),
        HourglassState::new(true, 1260, false),
        HourglassState::new(true, 1260, true),
        HourglassState::new(false, 1260, true),
        HourglassState::new(false, 1260, true),
    ];
    let mut state = Lifecycle::new();
    let mut directives = Vec::new();
    for snapshot in snapshots {
        let (next, directive) = state.receive(snapshot);
        state = next;
        directives.push(directive);
    }
    assert_eq!(
        directives,
        vec![
            Directive::Observe(snapshots[0]),
            Directive::Observe(snapshots[1]),
            Directive::StopListener,
            Directive::Ignore,
            Directive::Ignore,
        ]
    );
    assert_eq!(state, Lifecycle::Draining);
    assert_eq!(state.listener_stopped(), Lifecycle::Stopped);
}
