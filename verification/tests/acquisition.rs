//! End-to-end scenarios for the acquisition state machine, driven on a
//! simulated millisecond clock.

use rlocation::bridge::{block_step, tick, BlockStep, TickOutcome};
use rlocation::controller::{AcquisitionController, SessionState, StartError};
use rlocation::delegate::{AuthorizationStatus, LocationDelegate, Outcome, ProviderError};
use rlocation::fix::LocationFix;

fn fix(latitude_udeg: i64, longitude_udeg: i64) -> LocationFix {
    LocationFix::new(latitude_udeg, longitude_udeg)
}

fn started_controller(timeout_ms: u64) -> AcquisitionController {
    let mut controller = AcquisitionController::new();
    let outcome = controller.start(0, timeout_ms, true);
    assert_eq!(outcome, Ok(()));
    controller
}

#[test]
fn scenario_fix_before_first_poll() {
    // Inject one update at t=10ms under a 1000ms timeout; a poll at
    // t=20ms reports exactly that fix.
    let mut controller = started_controller(1000);
    controller.on_location_update(&vec![fix(12_340_000, 56_780_000)]);
    let state = controller.poll(20);
    assert_eq!(state, SessionState::Resolved(fix(12_340_000, 56_780_000)));
}

#[test]
fn scenario_no_injection_times_out() {
    // Inject nothing under a 100ms timeout; a poll at t=150ms times out.
    let mut controller = started_controller(100);
    let state = controller.poll(150);
    assert_eq!(state, SessionState::TimedOut);
}

#[test]
fn scenario_failure_is_sticky() {
    // A failure at t=5ms decides the session; a later update at t=20ms
    // does not change what polls report (first-wins policy).
    let mut controller = started_controller(1000);
    controller.on_failure(ProviderError { code: 1 });
    let state = controller.poll(10);
    assert_eq!(state, SessionState::Failed);
    controller.on_location_update(&vec![fix(1, 2)]);
    assert_eq!(controller.poll(25), SessionState::Failed);
}

#[test]
fn first_of_several_updates_wins() {
    let mut controller = started_controller(1000);
    controller.on_location_update(&vec![fix(10, 20), fix(30, 40)]);
    controller.on_location_update(&vec![fix(50, 60)]);
    let state = controller.poll(15);
    assert_eq!(state, SessionState::Resolved(fix(10, 20)));
}

#[test]
fn fix_beats_later_failure() {
    let mut controller = started_controller(1000);
    controller.on_location_update(&vec![fix(7, 8)]);
    controller.on_failure(ProviderError { code: 9 });
    assert_eq!(controller.poll(30), SessionState::Resolved(fix(7, 8)));
}

#[test]
fn empty_update_is_ignored() {
    let mut controller = started_controller(1000);
    controller.on_location_update(&Vec::new());
    assert_eq!(controller.poll(10), SessionState::Requested);
}

#[test]
fn authorization_change_is_informational() {
    let mut controller = started_controller(1000);
    controller.on_authorization_change(AuthorizationStatus::Denied);
    assert_eq!(controller.poll(10), SessionState::Requested);
    controller.on_authorization_change(AuthorizationStatus::AuthorizedAlways);
    assert_eq!(controller.poll(20), SessionState::Requested);
}

#[test]
fn poll_is_idempotent_after_resolution() {
    let mut controller = started_controller(1000);
    controller.on_location_update(&vec![fix(3, 4)]);
    let first = controller.poll(10);
    assert_eq!(first, SessionState::Resolved(fix(3, 4)));
    // Repeated polls, at any later instant, keep reporting the same
    // terminal state.
    assert_eq!(controller.poll(10), first);
    assert_eq!(controller.poll(500), first);
    assert_eq!(controller.poll(10_000), first);
}

#[test]
fn requested_until_deadline_then_timed_out() {
    let mut controller = started_controller(100);
    assert_eq!(controller.poll(0), SessionState::Requested);
    assert_eq!(controller.poll(99), SessionState::Requested);
    assert_eq!(controller.poll(100), SessionState::TimedOut);
}

#[test]
fn timed_out_never_reverts() {
    let mut controller = started_controller(100);
    assert_eq!(controller.poll(150), SessionState::TimedOut);
    // A late callback is tolerated but has no observable effect.
    controller.on_location_update(&vec![fix(1, 1)]);
    assert_eq!(controller.poll(200), SessionState::TimedOut);
    assert_eq!(controller.poll(0), SessionState::TimedOut);
}

#[test]
fn zero_timeout_times_out_at_once() {
    let mut controller = started_controller(0);
    assert_eq!(controller.poll(0), SessionState::TimedOut);
}

#[test]
fn unavailable_provider_fails_synchronously() {
    let mut controller = AcquisitionController::new();
    let outcome = controller.start(0, 1000, false);
    assert_eq!(outcome, Err(StartError::ProviderUnavailable));
    assert!(!controller.is_started());
    // The session stayed idle, so a fresh attempt may still start it.
    assert_eq!(controller.start(5, 1000, true), Ok(()));
    assert!(controller.is_started());
    assert_eq!(controller.start_time_ms(), 5);
    assert_eq!(controller.timeout_ms(), 1000);
}

#[test]
fn blocking_wait_is_bounded_without_callbacks() {
    // 200ms timeout polled every 50ms: the loop must finish by 260ms of
    // simulated clock, i.e. within timeout plus one polling period.
    let timeout_ms: u64 = 200;
    let interval_ms: u64 = 50;
    let mut controller = started_controller(timeout_ms);
    let mut now_ms: u64 = 10;
    let mut polls: u64 = 0;
    let outcome = loop {
        polls += 1;
        match block_step(&mut controller, now_ms, interval_ms) {
            BlockStep::Done(state) => break state,
            BlockStep::Sleep(wait_ms) => {
                assert_eq!(wait_ms, interval_ms);
                now_ms += wait_ms;
            }
        }
    };
    assert_eq!(outcome, SessionState::TimedOut);
    assert!(now_ms <= timeout_ms + interval_ms + 10);
    assert!(polls <= timeout_ms / interval_ms + 2);
}

#[test]
fn blocking_wait_stops_on_fix() {
    let mut controller = started_controller(1000);
    let first = block_step(&mut controller, 0, 50);
    assert_eq!(first, BlockStep::Sleep(50));
    controller.on_location_update(&vec![fix(21, 42)]);
    let second = block_step(&mut controller, 50, 50);
    assert_eq!(second, BlockStep::Done(SessionState::Resolved(fix(21, 42))));
}

#[test]
fn cooperative_ticks_stop_once_terminal() {
    let mut controller = started_controller(1000);
    assert_eq!(tick(&mut controller, 16), TickOutcome::Continue);
    assert_eq!(tick(&mut controller, 33), TickOutcome::Continue);
    controller.on_failure(ProviderError { code: -3 });
    assert_eq!(tick(&mut controller, 50), TickOutcome::Stop(SessionState::Failed));
    // Further ticks keep asking the loop to stop with the same state.
    assert_eq!(tick(&mut controller, 66), TickOutcome::Stop(SessionState::Failed));
}

#[test]
fn delegate_takes_first_candidate_only() {
    let mut delegate = LocationDelegate::new();
    assert_eq!(delegate.current(), Outcome::Pending);
    delegate.on_location_update(&vec![fix(100, 200), fix(300, 400)]);
    assert_eq!(delegate.current(), Outcome::Fix(fix(100, 200)));
    delegate.on_location_update(&vec![fix(500, 600)]);
    assert_eq!(delegate.current(), Outcome::Fix(fix(100, 200)));
    delegate.on_failure(ProviderError { code: 2 });
    assert_eq!(delegate.current(), Outcome::Fix(fix(100, 200)));
}

#[test]
fn delegate_failure_decides_pending_session() {
    let mut delegate = LocationDelegate::new();
    delegate.on_authorization_change(AuthorizationStatus::NotDetermined);
    assert_eq!(delegate.current(), Outcome::Pending);
    delegate.on_failure(ProviderError { code: 11 });
    assert_eq!(delegate.current(), Outcome::Fail);
    delegate.on_location_update(&vec![fix(1, 2)]);
    assert_eq!(delegate.current(), Outcome::Fail);
}
