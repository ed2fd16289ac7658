//! The consumer side: both waiting strategies are one poll each, and the
//! difference is only who drives the scheduling.
//!
//! A headless driver loops on [`block_step`]: it performs the returned
//! sleep itself and polls again with a fresh clock reading. A cooperative
//! driver registers [`tick`] with an event loop it does not own and stops
//! the loop on `Stop`. Neither function blocks; all waiting is the
//! driver's, so a tick never violates cooperative scheduling.

use vstd::prelude::*;

use vstd::arithmetic::div_mod::{
    lemma_div_pos_is_pos, lemma_fundamental_div_mod, lemma_mod_bound,
};
use vstd::arithmetic::mul::lemma_mul_inequality;

use crate::controller::{
    is_terminal, lemma_poll_terminal_past_deadline, AcquisitionController, ControllerModel,
    SessionState,
};

verus! {

/// What a blocking driver does next: stop with the terminal state, or
/// sleep for the polling period and poll again.
#[derive(Clone, Copy, Debug, PartialEq, Eq, Structural)]
pub enum BlockStep {
    Done(SessionState),
    Sleep(u64),
}

/// What a cooperative tick asks of its event loop: keep ticking, or
/// update the visible state once and request the loop to stop.
#[derive(Clone, Copy, Debug, PartialEq, Eq, Structural)]
pub enum TickOutcome {
    Continue,
    Stop(SessionState),
}

/// One iteration of the blocking wait: poll once at `now_ms`; on a
/// terminal report the wait is done, otherwise the driver is told to
/// sleep one polling period and come back. By
/// [`lemma_blocking_wait_terminates`], a driver that performs each
/// sleep reaches `Done` within the session timeout plus one polling
/// period of the start instant.
pub fn block_step(
    controller: &mut AcquisitionController,
    now_ms: u64,
    poll_interval_ms: u64,
) -> (step: BlockStep)
    requires
        old(controller)@.wf(),
        old(controller)@.started,
        now_ms >= old(controller)@.start_ms,
    ensures
        final(controller)@.wf(),
        final(controller)@ == old(controller)@.after_poll(now_ms),
        ({
            let state = old(controller)@.poll_result(now_ms);
            if is_terminal(state) {
                step == BlockStep::Done(state)
            } else {
                step == BlockStep::Sleep(poll_interval_ms)
            }
        }),
{
    let state = controller.poll(now_ms);
    match state {
        SessionState::Resolved(_) => BlockStep::Done(state),
        SessionState::Failed => BlockStep::Done(state),
        SessionState::TimedOut => BlockStep::Done(state),
        _ => BlockStep::Sleep(poll_interval_ms),
    }
}

/// One cooperative tick: poll once at `now_ms`; on a terminal report ask
/// the event loop to stop, otherwise continue. Never blocks or sleeps.
pub fn tick(controller: &mut AcquisitionController, now_ms: u64) -> (outcome: TickOutcome)
    requires
        old(controller)@.wf(),
        old(controller)@.started,
        now_ms >= old(controller)@.start_ms,
    ensures
        final(controller)@.wf(),
        final(controller)@ == old(controller)@.after_poll(now_ms),
        ({
            let state = old(controller)@.poll_result(now_ms);
            if is_terminal(state) {
                outcome == TickOutcome::Stop(state)
            } else {
                outcome == TickOutcome::Continue
            }
        }),
{
    let state = controller.poll(now_ms);
    match state {
        SessionState::Resolved(_) => TickOutcome::Stop(state),
        SessionState::Failed => TickOutcome::Stop(state),
        SessionState::TimedOut => TickOutcome::Stop(state),
        _ => TickOutcome::Continue,
    }
}

/// Law: polling every `interval` milliseconds covers the timeout after
/// `(timeout + interval - 1) / interval` periods — that many whole
/// periods amount to at least `timeout` and to strictly less than
/// `timeout + interval` milliseconds. A driver whose polls are at most
/// one period apart therefore polls at or past the deadline no later
/// than `timeout + interval` milliseconds after the start instant, and
/// that poll reports a terminal state: the blocking wait is bounded.
pub proof fn lemma_poll_period_covers_timeout(timeout: int, interval: int)
    requires
        1 <= interval,
        0 <= timeout,
    ensures
        ({
            let periods = (timeout + interval - 1) / interval;
            &&& 0 <= periods
            &&& timeout <= periods * interval
            &&& periods * interval < timeout + interval
        }),
{
    let padded = timeout + interval - 1;
    let periods = padded / interval;
    lemma_fundamental_div_mod(padded, interval);
    lemma_mod_bound(padded, interval);
    lemma_div_pos_is_pos(padded, interval);
    assert(padded == interval * periods + padded % interval);
    assert(periods * interval == interval * periods) by (nonlinear_arith);
    assert(timeout <= periods * interval);
    assert(periods * interval < timeout + interval);
}

/// Law: the blocking wait is bounded. A driver that sleeps one polling
/// period between polls makes its `index`-th poll no earlier than
/// `index` whole periods past the start instant; from index
/// `(timeout + interval - 1) / interval` on — reached within the
/// session timeout plus one polling period of wall clock — every such
/// poll is at or past the deadline and reports a terminal state, so the
/// loop around [`block_step`] never runs unboundedly.
pub proof fn lemma_blocking_wait_terminates(
    model: ControllerModel,
    now: u64,
    index: int,
    interval: int,
)
    requires
        model.wf(),
        model.started,
        1 <= interval,
        index >= (model.timeout_ms + interval - 1) / interval,
        now >= model.start_ms + index * interval,
    ensures
        is_terminal(model.poll_result(now)),
{
    let periods = (model.timeout_ms + interval - 1) / interval;
    lemma_poll_period_covers_timeout(model.timeout_ms as int, interval);
    lemma_mul_inequality(periods, index, interval);
    lemma_poll_terminal_past_deadline(model, now);
}

} // verus!
