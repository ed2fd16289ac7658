//! The callback target: it adapts pushed provider notifications into at
//! most one decisive write on the session's result cell.

use vstd::prelude::*;

use crate::cell::{CellState, SharedResultCell};
use crate::fix::LocationFix;

verus! {

/// The provider's authorization standing, as reported to the delegate.
/// Changes are informational only in this design: they never move the
/// session forward or fail it, and the choice is documented on
/// [`LocationDelegate::on_authorization_change`].
#[derive(Clone, Copy, Debug, PartialEq, Eq, Structural)]
pub enum AuthorizationStatus {
    NotDetermined,
    Restricted,
    Denied,
    AuthorizedAlways,
    AuthorizedWhenInUse,
}

/// The failure notice a provider delivers. The payload is an opaque
/// platform code; the delegate never reads it, only the fact of failure.
#[derive(Clone, Copy, Debug, PartialEq, Eq, Structural)]
pub struct ProviderError {
    pub code: i64,
}

/// What the delegate has decided so far for the session: nothing yet,
/// a fix (the first one delivered), or a terminal provider failure.
#[derive(Clone, Copy, Debug, PartialEq, Eq, Structural)]
pub enum Outcome {
    Pending,
    Fix(LocationFix),
    Fail,
}

/// How a batch of location candidates moves the outcome: while the
/// outcome is still `Pending` and the batch is non-empty, the first
/// candidate decides the session; afterwards every batch is ignored,
/// so the first decisive delivery wins.
pub open spec fn outcome_after_locations(outcome: Outcome, candidates: Seq<LocationFix>) -> Outcome {
    if outcome is Pending && candidates.len() > 0 {
        Outcome::Fix(candidates[0])
    } else {
        outcome
    }
}

/// How a failure notice moves the outcome: it decides a still-pending
/// session and is ignored once anything else was decided first.
pub open spec fn outcome_after_failure(outcome: Outcome) -> Outcome {
    if outcome is Pending {
        Outcome::Fail
    } else {
        outcome
    }
}

/// One pushed notification, as the provider may deliver it.
pub enum DeliveryEvent {
    Locations(Seq<LocationFix>),
    Authorization(AuthorizationStatus),
    Failure,
}

/// The outcome after one delivery event.
pub open spec fn outcome_after_event(outcome: Outcome, event: DeliveryEvent) -> Outcome {
    match event {
        DeliveryEvent::Locations(candidates) => outcome_after_locations(outcome, candidates),
        DeliveryEvent::Authorization(_) => outcome,
        DeliveryEvent::Failure => outcome_after_failure(outcome),
    }
}

/// The outcome after a whole sequence of delivery events, in the order
/// the delegate receives them.
pub open spec fn outcome_after_events(outcome: Outcome, events: Seq<DeliveryEvent>) -> Outcome
    decreases events.len(),
{
    if events.len() == 0 {
        outcome
    } else {
        outcome_after_events(outcome_after_event(outcome, events[0]), events.drop_first())
    }
}

/// The first decisive event of a sequence: the first non-empty location
/// batch (whose first candidate it yields) or the first failure notice,
/// whichever comes earlier; `Pending` when no event decides.
pub open spec fn first_decisive(events: Seq<DeliveryEvent>) -> Outcome
    decreases events.len(),
{
    if events.len() == 0 {
        Outcome::Pending
    } else {
        match events[0] {
            DeliveryEvent::Locations(candidates) => {
                if candidates.len() > 0 {
                    Outcome::Fix(candidates[0])
                } else {
                    first_decisive(events.drop_first())
                }
            },
            DeliveryEvent::Authorization(_) => first_decisive(events.drop_first()),
            DeliveryEvent::Failure => Outcome::Fail,
        }
    }
}

/// Law: a decided outcome is never changed by later deliveries — terminal
/// decisions are sticky under every further event.
pub proof fn lemma_decided_outcome_sticky(outcome: Outcome, events: Seq<DeliveryEvent>)
    requires
        outcome !is Pending,
    ensures
        outcome_after_events(outcome, events) == outcome,
    decreases events.len(),
{
    if events.len() > 0 {
        lemma_decided_outcome_sticky(outcome_after_event(outcome, events[0]), events.drop_first());
    }
}

/// Law: for every sequence of deliveries to a fresh delegate, the outcome
/// is exactly the first decisive event — the first delivered fix, or the
/// failure, whichever arrived first — independent of everything after it.
pub proof fn lemma_first_event_wins(events: Seq<DeliveryEvent>)
    ensures
        outcome_after_events(Outcome::Pending, events) == first_decisive(events),
    decreases events.len(),
{
    if events.len() > 0 {
        match events[0] {
            DeliveryEvent::Locations(candidates) => {
                if candidates.len() > 0 {
                    lemma_decided_outcome_sticky(Outcome::Fix(candidates[0]), events.drop_first());
                } else {
                    lemma_first_event_wins(events.drop_first());
                }
            },
            DeliveryEvent::Authorization(_) => {
                lemma_first_event_wins(events.drop_first());
            },
            DeliveryEvent::Failure => {
                lemma_decided_outcome_sticky(Outcome::Fail, events.drop_first());
            },
        }
    }
}

/// The callback target for one acquisition session. It owns the session's
/// result cell and a failure flag; its view is the session [`Outcome`].
/// First-wins policy: the first decisive notification (non-empty location
/// batch or failure) fixes the outcome, and every later notification is
/// ignored, so a late write can never corrupt a decided session.
pub struct LocationDelegate {
    cell: SharedResultCell,
    failed: bool,
}

impl View for LocationDelegate {
    type V = Outcome;

    closed spec fn view(&self) -> Outcome {
        match self.cell@ {
            CellState::Resolved(fix) => Outcome::Fix(fix),
            CellState::Empty => if self.failed {
                Outcome::Fail
            } else {
                Outcome::Pending
            },
        }
    }
}

impl LocationDelegate {
    /// A fresh delegate with an empty cell and no failure recorded.
    pub fn new() -> (delegate: Self)
        ensures
            delegate@ == Outcome::Pending,
    {
        LocationDelegate { cell: SharedResultCell::new(), failed: false }
    }

    /// The current outcome, read without blocking.
    pub fn current(&self) -> (outcome: Outcome)
        ensures
            outcome == self@,
    {
        match self.cell.read() {
            CellState::Resolved(fix) => Outcome::Fix(fix),
            CellState::Empty => {
                if self.failed {
                    Outcome::Fail
                } else {
                    Outcome::Pending
                }
            },
        }
    }

    /// A batch of location candidates arrived. While the session is still
    /// pending and the batch is non-empty, the first candidate is written
    /// to the cell; otherwise the delivery is ignored.
    pub fn on_location_update(&mut self, candidates: &Vec<LocationFix>)
        ensures
            final(self)@ == outcome_after_locations(old(self)@, candidates@),
    {
        if candidates.len() > 0 && !self.failed {
            if let CellState::Empty = self.cell.read() {
                self.cell.write(candidates[0]);
            }
        }
    }

    /// The provider's authorization standing changed. Observed only: this
    /// design neither fails nor advances the session on it, so a denial
    /// simply leaves the session to run into its timeout.
    pub fn on_authorization_change(&mut self, _status: AuthorizationStatus)
        ensures
            *final(self) == *old(self),
    {
    }

    /// The provider reported failure. It decides a still-pending session;
    /// once a fix or an earlier failure was recorded, it is ignored.
    pub fn on_failure(&mut self, _error: ProviderError)
        ensures
            final(self)@ == outcome_after_failure(old(self)@),
    {
        if !self.failed {
            if let CellState::Empty = self.cell.read() {
                self.failed = true;
            }
        }
    }
}

} // verus!
