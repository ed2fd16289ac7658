//! The result cell and the caller-visible text.

use rlocation::cell::{CellState, SharedResultCell};
use rlocation::controller::SessionState;
use rlocation::fix::LocationFix;
use rlocation::render::{render_ip_text, render_state_text, LookupFailure};

#[test]
fn cell_starts_empty_and_keeps_writes() {
    let mut cell = SharedResultCell::new();
    assert_eq!(cell.read(), CellState::Empty);
    let first = LocationFix::new(12_340_000, 56_780_000);
    cell.write(first);
    assert_eq!(cell.read(), CellState::Resolved(first));
    // Reading does not drain the slot, and a later write replaces the
    // value; nothing ever takes the cell back to `Empty`.
    assert_eq!(cell.read(), CellState::Resolved(first));
    let second = LocationFix::new(1, 2);
    cell.write(second);
    assert_eq!(cell.read(), CellState::Resolved(second));
}

#[test]
fn lookup_success_passes_through() {
    let text = render_ip_text(Ok(String::from("203.0.113.7")));
    assert_eq!(text, "203.0.113.7");
}

#[test]
fn lookup_failure_renders_placeholder() {
    let text = render_ip_text(Err(LookupFailure::Unavailable));
    assert_eq!(text, "Unable to get IP address");
    assert!(!text.is_empty());
}

#[test]
fn state_phrases_are_fixed_and_nonempty() {
    assert_eq!(render_state_text(&SessionState::Idle), "not started");
    assert_eq!(render_state_text(&SessionState::Requested), "waiting for location");
    assert_eq!(
        render_state_text(&SessionState::Resolved(LocationFix::new(3, 4))),
        "location acquired"
    );
    assert_eq!(render_state_text(&SessionState::Failed), "no fix obtained");
    assert_eq!(render_state_text(&SessionState::TimedOut), "no fix within the timeout");
    assert!(!render_state_text(&SessionState::TimedOut).is_empty());
}
