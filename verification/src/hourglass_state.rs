//! The hourglass record and its detached snapshot form.

use vstd::prelude::*;

verus! {

/// The three values of the hourglass. The type is used in two forms: with each
/// field behind a lock of its own (the live state), and with plain values (a
/// snapshot that travels to the event loop).
#[derive(Debug, PartialEq, Eq, Structural)]
pub struct HourglassState<T1, T2, T3> {
    /// Is the countdown active?
    pub ticking: T1,
    /// How much time remains.
    pub remaining_seconds: T2,
    /// Has termination been requested?
    pub finalize: T3,
}

impl<T1: Copy, T2: Copy, T3: Copy> Clone for HourglassState<T1, T2, T3> {
    fn clone(&self) -> (copy: Self)
        ensures
            copy == *self,
    {
        *self
    }
}

impl<T1: Copy, T2: Copy, T3: Copy> Copy for HourglassState<T1, T2, T3> {

}

/// A point-in-time copy of the three values, detached from the live state.
pub type Snapshot = HourglassState<bool, u16, bool>;

/// The remaining seconds that a freshly started service holds.
pub const INITIAL_REMAINING_SECONDS: u16 = 1200;

impl<T1, T2, T3> HourglassState<T1, T2, T3> {
    /// Builds a record from its three fields.
    pub fn new(ticking: T1, remaining_seconds: T2, finalize: T3) -> (state: Self)
        ensures
            state.ticking == ticking,
            state.remaining_seconds == remaining_seconds,
            state.finalize == finalize,
    {
        HourglassState { ticking, remaining_seconds, finalize }
    }
}

/// The values that the service starts with: not ticking, twenty minutes left,
/// no termination requested.
pub open spec fn initial_snapshot() -> Snapshot {
    HourglassState { ticking: false, remaining_seconds: INITIAL_REMAINING_SECONDS, finalize: false }
}

impl HourglassState<bool, u16, bool> {
    /// The values that the service starts with.
    pub fn initial() -> (state: Self)
        ensures
            state == initial_snapshot(),
    {
        HourglassState::new(false, INITIAL_REMAINING_SECONDS, false)
    }
}

} // verus!
