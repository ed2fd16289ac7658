//! The acquisition controller: one instance per session, owning the
//! request lifecycle from `start` through a terminal state.

use vstd::prelude::*;

use crate::delegate::{
    outcome_after_events, outcome_after_failure, outcome_after_locations, first_decisive,
    lemma_first_event_wins, AuthorizationStatus, DeliveryEvent, LocationDelegate, Outcome,
    ProviderError,
};
use crate::fix::LocationFix;

verus! {

/// Where a session stands. `Idle` precedes `start`; `Requested` is the
/// pending wait; `Resolved`, `Failed` and `TimedOut` are terminal.
#[derive(Clone, Copy, Debug, PartialEq, Eq, Structural)]
pub enum SessionState {
    Idle,
    Requested,
    Resolved(LocationFix),
    Failed,
    TimedOut,
}

/// Why `start` can refuse synchronously.
#[derive(Clone, Copy, Debug, PartialEq, Eq, Structural)]
pub enum StartError {
    ProviderUnavailable,
}

/// Whether a state is terminal: once reported, a session never leaves it.
pub open spec fn is_terminal(state: SessionState) -> bool {
    state is Resolved || state is Failed || state is TimedOut
}

/// The mathematical model of a controller: the session clock bounds, the
/// delegate's outcome so far, and the latched terminal report, if any.
pub struct ControllerModel {
    pub started: bool,
    pub start_ms: u64,
    pub timeout_ms: u64,
    pub outcome: Outcome,
    pub latched: Option<SessionState>,
}

impl ControllerModel {
    /// A latched report is always a terminal state of a started session.
    pub open spec fn wf(self) -> bool {
        self.latched matches Some(state) ==> is_terminal(state) && self.started
    }

    /// The instant (in session-clock milliseconds, as an unbounded
    /// integer) at which a still-pending session times out.
    pub open spec fn deadline(self) -> int {
        self.start_ms + self.timeout_ms
    }

    /// What a poll at instant `now` reports: the latched terminal state
    /// if one exists; else the delegate's decision if it made one; else
    /// `TimedOut` once the deadline has passed, and `Requested` before.
    pub open spec fn poll_result(self, now: u64) -> SessionState {
        match self.latched {
            Some(state) => state,
            None => match self.outcome {
                Outcome::Fix(fix) => SessionState::Resolved(fix),
                Outcome::Fail => SessionState::Failed,
                Outcome::Pending => if now >= self.deadline() {
                    SessionState::TimedOut
                } else {
                    SessionState::Requested
                },
            },
        }
    }

    /// The model after a poll at `now`: a terminal report is latched,
    /// a pending report changes nothing.
    pub open spec fn after_poll(self, now: u64) -> ControllerModel {
        let state = self.poll_result(now);
        if is_terminal(state) {
            ControllerModel { latched: Some(state), ..self }
        } else {
            self
        }
    }

    /// The model after a successful `start` at `now` with `timeout_ms`.
    pub open spec fn after_start(self, now: u64, timeout_ms: u64) -> ControllerModel {
        ControllerModel { started: true, start_ms: now, timeout_ms, ..self }
    }

    /// The model after the delegate received a batch of candidates.
    pub open spec fn after_locations(self, candidates: Seq<LocationFix>) -> ControllerModel {
        ControllerModel { outcome: outcome_after_locations(self.outcome, candidates), ..self }
    }

    /// The model after the delegate received a failure notice.
    pub open spec fn after_failure(self) -> ControllerModel {
        ControllerModel { outcome: outcome_after_failure(self.outcome), ..self }
    }

    /// The model after one delivery event reached the delegate.
    pub open spec fn after_event(self, event: DeliveryEvent) -> ControllerModel {
        match event {
            DeliveryEvent::Locations(candidates) => self.after_locations(candidates),
            DeliveryEvent::Authorization(_) => self,
            DeliveryEvent::Failure => self.after_failure(),
        }
    }

    /// The model after a whole sequence of delivery events, in order.
    pub open spec fn after_events(self, events: Seq<DeliveryEvent>) -> ControllerModel
        decreases events.len(),
    {
        if events.len() == 0 {
            self
        } else {
            self.after_event(events[0]).after_events(events.drop_first())
        }
    }
}

/// Law: deliveries touch only the delegate's outcome — the clock bounds,
/// the started flag and the latch are exactly those of the model before,
/// and the outcome is the fold of the events over the model's outcome.
pub proof fn lemma_events_touch_only_outcome(model: ControllerModel, events: Seq<DeliveryEvent>)
    ensures
        model.after_events(events) == (ControllerModel {
            outcome: outcome_after_events(model.outcome, events),
            ..model
        }),
    decreases events.len(),
{
    if events.len() > 0 {
        lemma_events_touch_only_outcome(model.after_event(events[0]), events.drop_first());
    }
}

/// Law: for every sequence of deliveries that reaches a freshly started,
/// still-undecided session before its first poll, that poll reports
/// exactly the first decisive delivery — the first delivered fix as
/// `Resolved`, a first failure as `Failed` — and with no decisive
/// delivery it reports by the clock alone.
pub proof fn lemma_first_delivery_reported(
    model: ControllerModel,
    events: Seq<DeliveryEvent>,
    now: u64,
)
    requires
        model.wf(),
        model.latched is None,
        model.outcome is Pending,
    ensures
        ({
            let polled = model.after_events(events).poll_result(now);
            &&& first_decisive(events) matches Outcome::Fix(fix)
                ==> polled == SessionState::Resolved(fix)
            &&& first_decisive(events) is Fail ==> polled == SessionState::Failed
            &&& first_decisive(events) is Pending ==> polled == (if now >= model.deadline() {
                SessionState::TimedOut
            } else {
                SessionState::Requested
            })
        }),
{
    lemma_events_touch_only_outcome(model, events);
    lemma_first_event_wins(events);
}

/// Law: polling is idempotent past a terminal report — once a poll has
/// reported a terminal state, every later poll, at any instant, reports
/// that same state again.
pub proof fn lemma_poll_idempotent(model: ControllerModel, now_first: u64, now_later: u64)
    requires
        model.wf(),
        model.started,
        is_terminal(model.poll_result(now_first)),
    ensures
        model.after_poll(now_first).wf(),
        model.after_poll(now_first).poll_result(now_later) == model.poll_result(now_first),
{
}

/// Law: while no callback and no failure arrive, a poll reports
/// `Requested` strictly before the deadline and `TimedOut` from the
/// deadline on — and a reported `TimedOut` never reverts: every later
/// poll reports `TimedOut` again, whatever its instant.
pub proof fn lemma_no_delivery_timeline(model: ControllerModel, now: u64, now_later: u64)
    requires
        model.wf(),
        model.started,
        model.latched is None,
        model.outcome is Pending,
    ensures
        now < model.deadline() ==> model.poll_result(now) == SessionState::Requested
            && model.after_poll(now) == model,
        now >= model.deadline() ==> model.poll_result(now) == SessionState::TimedOut
            && model.after_poll(now).poll_result(now_later) == SessionState::TimedOut,
{
}

/// Law: from the deadline on, a poll of a started session always reports
/// a terminal state — the wait a poll loop performs is bounded by the
/// session's timeout plus one polling period.
pub proof fn lemma_poll_terminal_past_deadline(model: ControllerModel, now: u64)
    requires
        model.wf(),
        model.started,
        now >= model.deadline(),
    ensures
        is_terminal(model.poll_result(now)),
{
}

/// Owns one acquisition session: the delegate (and through it the result
/// cell), the session clock bounds, and the latched terminal report. Its
/// view is a [`ControllerModel`]. The caller supplies every clock reading
/// as milliseconds on one monotonic clock.
pub struct AcquisitionController {
    started: bool,
    start_ms: u64,
    timeout_ms: u64,
    delegate: LocationDelegate,
    latched: Option<SessionState>,
}

impl View for AcquisitionController {
    type V = ControllerModel;

    closed spec fn view(&self) -> ControllerModel {
        ControllerModel {
            started: self.started,
            start_ms: self.start_ms,
            timeout_ms: self.timeout_ms,
            outcome: self.delegate@,
            latched: self.latched,
        }
    }
}

impl AcquisitionController {
    /// A fresh, idle session with a fresh delegate and an empty cell.
    pub fn new() -> (controller: Self)
        ensures
            controller@ == (ControllerModel {
                started: false,
                start_ms: 0,
                timeout_ms: 0,
                outcome: Outcome::Pending,
                latched: None::<SessionState>,
            }),
    {
        AcquisitionController {
            started: false,
            start_ms: 0,
            timeout_ms: 0,
            delegate: LocationDelegate::new(),
            latched: None,
        }
    }

    /// Move `Idle` to `Requested`, recording the start instant and the
    /// timeout. The caller performs the platform side — registering the
    /// delegate and issuing the one-shot fix request — and reports with
    /// `provider_available` whether the provider could be initialized;
    /// when it could not, the session stays idle and the error is
    /// surfaced synchronously, never later through the timeout.
    pub fn start(
        &mut self,
        now_ms: u64,
        timeout_ms: u64,
        provider_available: bool,
    ) -> (result: Result<(), StartError>)
        requires
            !old(self)@.started,
            old(self)@.wf(),
        ensures
            final(self)@.wf(),
            provider_available ==> result == Ok::<(), StartError>(())
                && final(self)@ == old(self)@.after_start(now_ms, timeout_ms),
            !provider_available ==> result == Err::<(), StartError>(StartError::ProviderUnavailable)
                && final(self)@ == old(self)@,
    {
        if provider_available {
            self.started = true;
            self.start_ms = now_ms;
            self.timeout_ms = timeout_ms;
            Ok(())
        } else {
            Err(StartError::ProviderUnavailable)
        }
    }

    /// Non-blocking status check at instant `now_ms`: reports the latched
    /// terminal state if one exists, else the delegate's decision, else
    /// `TimedOut` or `Requested` by the clock — and latches whatever
    /// terminal state it reports, so the report can never change again.
    pub fn poll(&mut self, now_ms: u64) -> (state: SessionState)
        requires
            old(self)@.wf(),
            old(self)@.started,
            now_ms >= old(self)@.start_ms,
        ensures
            final(self)@.wf(),
            state == old(self)@.poll_result(now_ms),
            final(self)@ == old(self)@.after_poll(now_ms),
    {
        if let Some(state) = self.latched {
            return state;
        }
        match self.delegate.current() {
            Outcome::Fix(fix) => {
                self.latched = Some(SessionState::Resolved(fix));
                SessionState::Resolved(fix)
            },
            Outcome::Fail => {
                self.latched = Some(SessionState::Failed);
                SessionState::Failed
            },
            Outcome::Pending => {
                let elapsed_ms: u64 = now_ms - self.start_ms;
                if elapsed_ms >= self.timeout_ms {
                    self.latched = Some(SessionState::TimedOut);
                    SessionState::TimedOut
                } else {
                    SessionState::Requested
                }
            },
        }
    }

    /// Forward a batch of location candidates to the delegate. Accepted
    /// at any time — even before `start` returns, since the platform may
    /// deliver a callback while registration is still in flight.
    pub fn on_location_update(&mut self, candidates: &Vec<LocationFix>)
        ensures
            final(self)@ == old(self)@.after_locations(candidates@),
    {
        self.delegate.on_location_update(candidates);
    }

    /// Forward an authorization change to the delegate: observed only.
    pub fn on_authorization_change(&mut self, status: AuthorizationStatus)
        ensures
            final(self)@ == old(self)@,
    {
        self.delegate.on_authorization_change(status);
    }

    /// Forward a provider failure notice to the delegate.
    pub fn on_failure(&mut self, error: ProviderError)
        ensures
            final(self)@ == old(self)@.after_failure(),
    {
        self.delegate.on_failure(error);
    }

    /// Whether `start` has succeeded for this session.
    pub fn is_started(&self) -> (started: bool)
        ensures
            started == self@.started,
    {
        self.started
    }

    /// The recorded start instant, meaningful once started.
    pub fn start_time_ms(&self) -> (start_ms: u64)
        ensures
            start_ms == self@.start_ms,
    {
        self.start_ms
    }

    /// The recorded timeout, meaningful once started.
    pub fn timeout_ms(&self) -> (timeout_ms: u64)
        ensures
            timeout_ms == self@.timeout_ms,
    {
        self.timeout_ms
    }
}

} // verus!
