//! The state store: the three values of the hourglass, each behind a lock of
//! its own.

use crate::control::{Change, Field, Mutation};
use crate::hourglass_state::{HourglassState, Snapshot};
use crate::seconds::UnderflowPolicy;
use std::sync::{Mutex, MutexGuard};
use vstd::prelude::*;

verus! {

/// `std::sync::Mutex`, a mutual-exclusion lock around a value, carried as an
/// opaque value.
#[verifier::external_type_specification]
#[verifier::external_body]
#[verifier::reject_recursive_types(T)]
pub struct ExMutex<T: ?Sized>(Mutex<T>);

/// `std::sync::MutexGuard`, the proof that a lock is held, carried as an
/// opaque value. The lock is released when the guard goes out of scope.
#[verifier::external_type_specification]
#[verifier::external_body]
#[verifier::reject_recursive_types(T)]
pub struct ExMutexGuard<'a, T: ?Sized + 'a>(MutexGuard<'a, T>);

/// The values that the lock's data holds at some time of the run, from the
/// making of the lock on. It says of no value that the lock never held it.
pub uninterp spec fn flags_held(lock: Mutex<bool>) -> Set<bool>;

/// The values that the lock's data holds at some time of the run, from the
/// making of the lock on. It says of no value that the lock never held it.
pub uninterp spec fn seconds_held(lock: Mutex<u16>) -> Set<u16>;

/// The values that the data behind a guard holds at some time of the run:
/// those of the lock that the guard was taken from.
pub uninterp spec fn flags_guarded(guard: MutexGuard<bool>) -> Set<bool>;

/// The values that the data behind a guard holds at some time of the run:
/// those of the lock that the guard was taken from.
pub uninterp spec fn seconds_guarded(guard: MutexGuard<u16>) -> Set<u16>;

/// Makes a lock around a flag by `Mutex::new`. The contract claims that the
/// lock has held the value that it was made with.
#[verifier::external_body]
fn new_flag(value: bool) -> (lock: Mutex<bool>)
    ensures
        flags_held(lock).contains(value),
{
    Mutex::new(value)
}

/// Makes a lock around a counter by `Mutex::new`. The contract claims that the
/// lock has held the value that it was made with.
#[verifier::external_body]
fn new_seconds(value: u16) -> (lock: Mutex<u16>)
    ensures
        seconds_held(lock).contains(value),
{
    Mutex::new(value)
}

/// Takes a lock by `Mutex::lock` and waits for it where another thread holds
/// it. A thread that holds the guard already would wait for ever: no function
/// here takes a second lock while it holds a guard. A poisoned lock is taken
/// all the same. The contract claims that what the data behind the guard
/// holds, the lock holds.
#[verifier::external_body]
fn lock_flag(lock: &Mutex<bool>) -> (guard: MutexGuard<'_, bool>)
    ensures
        flags_guarded(guard).subset_of(flags_held(*lock)),
{
    match lock.lock() {
        Ok(guard) => guard,
        Err(poisoned) => poisoned.into_inner(),
    }
}

/// Takes a lock by `Mutex::lock`, as `lock_flag` does for a flag.
#[verifier::external_body]
fn lock_seconds(lock: &Mutex<u16>) -> (guard: MutexGuard<'_, u16>)
    ensures
        seconds_guarded(guard).subset_of(seconds_held(*lock)),
{
    match lock.lock() {
        Ok(guard) => guard,
        Err(poisoned) => poisoned.into_inner(),
    }
}

/// Copies the flag out from behind a guard, by the guard's `Deref`. The
/// contract claims that the data holds the value found.
#[verifier::external_body]
fn flag_under(guard: &MutexGuard<'_, bool>) -> (found: bool)
    ensures
        flags_guarded(*guard).contains(found),
{
    **guard
}

/// Copies the counter out from behind a guard, by the guard's `Deref`. The
/// contract claims that the data holds the value found.
#[verifier::external_body]
fn seconds_under(guard: &MutexGuard<'_, u16>) -> (found: u16)
    ensures
        seconds_guarded(*guard).contains(found),
{
    **guard
}

/// Stores a flag behind a guard, by the guard's `DerefMut`, and gives the
/// guard up, which releases the lock. The contract claims that the value
/// stored is the one given and that the data holds it from then on.
#[verifier::external_body]
fn store_flag(guard: MutexGuard<'_, bool>, value: bool) -> (stored: bool)
    ensures
        stored == value,
        flags_guarded(guard).contains(stored),
{
    let mut guard = guard;
    *guard = value;
    value
}

/// Stores a counter behind a guard, by the guard's `DerefMut`, and gives the
/// guard up, which releases the lock. The contract claims that the value
/// stored is the one given and that the data holds it from then on.
#[verifier::external_body]
fn store_seconds(guard: MutexGuard<'_, u16>, value: u16) -> (stored: u16)
    ensures
        stored == value,
        seconds_guarded(guard).contains(stored),
{
    let mut guard = guard;
    *guard = value;
    value
}

/// The live state, shared by all request handlers: each field behind its own
/// lock, so that callers of different fields do not wait for each other.
pub type GuardedState = HourglassState<Mutex<bool>, Mutex<u16>, Mutex<bool>>;

impl HourglassState<Mutex<bool>, Mutex<u16>, Mutex<bool>> {
    /// Has each value of `snapshot` been held by its own field's lock at some
    /// time of the run? The three need not have been held together.
    pub open spec fn has_held(self, snapshot: Snapshot) -> bool {
        &&& flags_held(self.ticking).contains(snapshot.ticking)
        &&& seconds_held(self.remaining_seconds).contains(snapshot.remaining_seconds)
        &&& flags_held(self.finalize).contains(snapshot.finalize)
    }

    /// Have the value found and the value stored both been held by the lock of
    /// the field that the change wrote?
    pub open spec fn has_seen(self, change: Change) -> bool {
        match change {
            Change::Ticking { found, stored } => flags_held(self.ticking).contains(found)
                && flags_held(self.ticking).contains(stored),
            Change::RemainingSeconds { found, stored } => seconds_held(
                self.remaining_seconds,
            ).contains(found) && seconds_held(self.remaining_seconds).contains(stored),
            Change::Finalize { found, stored } => flags_held(self.finalize).contains(found)
                && flags_held(self.finalize).contains(stored),
        }
    }

    /// Puts each value of `initial` behind a lock.
    pub fn guarded(initial: Snapshot) -> (state: Self)
        ensures
            state.has_held(initial),
    {
        HourglassState {
            ticking: new_flag(initial.ticking),
            remaining_seconds: new_seconds(initial.remaining_seconds),
            finalize: new_flag(initial.finalize),
        }
    }

    /// Copies the ticking flag out under its lock.
    pub fn read_ticking(&self) -> (ticking: bool)
        ensures
            flags_held(self.ticking).contains(ticking),
    {
        let guard = lock_flag(&self.ticking);
        flag_under(&guard)
    }

    /// Copies the remaining seconds out under their lock.
    pub fn read_remaining_seconds(&self) -> (remaining_seconds: u16)
        ensures
            seconds_held(self.remaining_seconds).contains(remaining_seconds),
    {
        let guard = lock_seconds(&self.remaining_seconds);
        seconds_under(&guard)
    }

    /// Copies the termination flag out under its lock.
    pub fn read_finalize(&self) -> (finalize: bool)
        ensures
            flags_held(self.finalize).contains(finalize),
    {
        let guard = lock_flag(&self.finalize);
        flag_under(&guard)
    }

    /// Carries a change out: takes the lock of the one field that the change
    /// writes, replaces the value there by the one that follows from it, and
    /// releases the lock. The other two locks are not touched. Reports the
    /// value that was found and the value that was stored.
    pub fn apply(&self, mutation: &Mutation, policy: UnderflowPolicy) -> (change: Change)
        ensures
            change.follows(*mutation, policy),
            self.has_seen(change),
    {
        match mutation.field() {
            Field::Ticking => {
                let guard = lock_flag(&self.ticking);
                let found = flag_under(&guard);
                let stored = store_flag(guard, mutation.next_ticking(found));
                Change::Ticking { found, stored }
            },
            Field::RemainingSeconds => {
                let guard = lock_seconds(&self.remaining_seconds);
                let found = seconds_under(&guard);
                let stored = store_seconds(guard, mutation.next_seconds(found, policy));
                Change::RemainingSeconds { found, stored }
            },
            Field::Finalize => {
                let guard = lock_flag(&self.finalize);
                let found = flag_under(&guard);
                let stored = store_flag(guard, mutation.next_finalize(found));
                Change::Finalize { found, stored }
            },
        }
    }

    /// Takes a snapshot: reads the ticking flag, then the remaining seconds,
    /// then the termination flag, each under its own lock and with that lock
    /// released before the next is taken. No lock is held across the three
    /// reads, so with writers at work in between the three values need not
    /// have been in the state together: each is one that its own lock has
    /// held.
    pub fn to_parcel(&self) -> (parcel: Snapshot)
        ensures
            self.has_held(parcel),
    {
        let ticking = self.read_ticking();
        let remaining_seconds = self.read_remaining_seconds();
        let finalize = self.read_finalize();
        HourglassState::new(ticking, remaining_seconds, finalize)
    }
}

} // verus!
