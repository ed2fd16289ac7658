//! The single-slot container shared between the delegate and the readers.

use vstd::prelude::*;

use crate::fix::LocationFix;

verus! {

/// What a reader of the cell can observe.
#[derive(Clone, Copy, Debug, PartialEq, Eq, Structural)]
pub enum CellState {
    Empty,
    Resolved(LocationFix),
}

/// A single-slot result container: it starts `Empty`, a write stores
/// `Resolved(fix)`, and no operation ever takes it back to `Empty`.
/// The delegate is its sole writer; the controller only reads it. The
/// state survives every read unchanged, so once a session sees
/// `Resolved` it can never observe `Empty` again.
pub struct SharedResultCell {
    slot: CellState,
}

impl View for SharedResultCell {
    type V = CellState;

    closed spec fn view(&self) -> CellState {
        self.slot
    }
}

impl SharedResultCell {
    /// A fresh, empty cell. Each acquisition session gets its own cell,
    /// so no stale fix from an earlier session can leak into a new one.
    pub fn new() -> (cell: Self)
        ensures
            cell@ == CellState::Empty,
    {
        SharedResultCell { slot: CellState::Empty }
    }

    /// Store `fix` unconditionally. The cell keeps the latest written
    /// value; the first-wins policy of a session is enforced by the
    /// delegate, which writes at most once.
    pub fn write(&mut self, fix: LocationFix)
        ensures
            final(self)@ == CellState::Resolved(fix),
    {
        self.slot = CellState::Resolved(fix);
    }

    /// Observe the current state without blocking or mutating.
    pub fn read(&self) -> (state: CellState)
        ensures
            state == self@,
    {
        self.slot
    }
}

} // verus!
