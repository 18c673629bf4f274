//! The control surface as a transition system: the changes that callers can
//! ask for, what each does to the three values, and what it answers.

use crate::hourglass_state::{HourglassState, Snapshot};
use crate::reply::Reply;
use crate::seconds::{
    add_minute, minute_added, minute_subtracted, parse_seconds, parsed_seconds, subtract_minute,
    UnderflowPolicy, SECONDS_PER_MINUTE,
};
use vstd::prelude::*;

verus! {

/// One of the three values of the hourglass.
#[derive(Clone, Copy, Debug, PartialEq, Eq, Structural)]
pub enum Field {
    /// Whether the countdown is active.
    Ticking,
    /// How much time remains.
    RemainingSeconds,
    /// Whether termination was requested.
    Finalize,
}

/// A change of the state that a caller can ask for.
#[derive(Clone, Copy, Debug, PartialEq, Eq, Structural)]
pub enum Mutation {
    /// Start the countdown.
    Start,
    /// Stop the countdown.
    Stop,
    /// Add a minute to the remaining seconds.
    PlusMinute,
    /// Subtract a minute from the remaining seconds.
    MinusMinute,
    /// Set the remaining seconds to a value.
    SetRemainingSeconds(u16),
    /// Request termination.
    EndService,
}

impl Mutation {
    /// The one field that the change writes.
    pub open spec fn field_spec(self) -> Field {
        match self {
            Mutation::Start | Mutation::Stop => Field::Ticking,
            Mutation::PlusMinute | Mutation::MinusMinute | Mutation::SetRemainingSeconds(_) =>
                Field::RemainingSeconds,
            Mutation::EndService => Field::Finalize,
        }
    }

    /// The ticking flag after the change.
    pub open spec fn ticking_after(self, ticking: bool) -> bool {
        match self {
            Mutation::Start => true,
            Mutation::Stop => false,
            _ => ticking,
        }
    }

    /// The remaining seconds after the change.
    pub open spec fn seconds_after(self, seconds: u16, policy: UnderflowPolicy) -> u16 {
        match self {
            Mutation::PlusMinute => minute_added(seconds),
            Mutation::MinusMinute => minute_subtracted(seconds, policy),
            Mutation::SetRemainingSeconds(value) => value,
            _ => seconds,
        }
    }

    /// The termination flag after the change.
    pub open spec fn finalize_after(self, finalize: bool) -> bool {
        match self {
            Mutation::EndService => true,
            _ => finalize,
        }
    }

    /// The state after the change, when nothing else touches it meanwhile.
    pub open spec fn applied(self, state: Snapshot, policy: UnderflowPolicy) -> Snapshot {
        HourglassState {
            ticking: self.ticking_after(state.ticking),
            remaining_seconds: self.seconds_after(state.remaining_seconds, policy),
            finalize: self.finalize_after(state.finalize),
        }
    }

    /// The answer that confirms the change.
    pub open spec fn reply_spec(self) -> Reply {
        match self {
            Mutation::Start => Reply::Started,
            Mutation::Stop => Reply::Stopped,
            Mutation::PlusMinute => Reply::MinuteAdded,
            Mutation::MinusMinute => Reply::MinuteSubtracted,
            Mutation::SetRemainingSeconds(value) => Reply::SecondsSet(value),
            Mutation::EndService => Reply::Farewell,
        }
    }

    /// The one field that the change writes: the only lock that it takes.
    pub fn field(&self) -> (field: Field)
        ensures
            field == self.field_spec(),
    {
        match self {
            Mutation::Start | Mutation::Stop => Field::Ticking,
            Mutation::PlusMinute | Mutation::MinusMinute | Mutation::SetRemainingSeconds(_) =>
                Field::RemainingSeconds,
            Mutation::EndService => Field::Finalize,
        }
    }

    /// The ticking flag to write, given the one that is there.
    pub fn next_ticking(&self, ticking: bool) -> (next: bool)
        ensures
            next == self.ticking_after(ticking),
    {
        match self {
            Mutation::Start => true,
            Mutation::Stop => false,
            _ => ticking,
        }
    }

    /// The remaining seconds to write, given those that are there.
    pub fn next_seconds(&self, seconds: u16, policy: UnderflowPolicy) -> (next: u16)
        ensures
            next == self.seconds_after(seconds, policy),
    {
        match self {
            Mutation::PlusMinute => add_minute(seconds),
            Mutation::MinusMinute => subtract_minute(seconds, policy),
            Mutation::SetRemainingSeconds(value) => *value,
            _ => seconds,
        }
    }

    /// The termination flag to write, given the one that is there.
    pub fn next_finalize(&self, finalize: bool) -> (next: bool)
        ensures
            next == self.finalize_after(finalize),
    {
        match self {
            Mutation::EndService => true,
            _ => finalize,
        }
    }

    /// The answer that confirms the change.
    pub fn reply(&self) -> (reply: Reply)
        ensures
            reply == self.reply_spec(),
            reply.reports_change(),
    {
        match self {
            Mutation::Start => Reply::Started,
            Mutation::Stop => Reply::Stopped,
            Mutation::PlusMinute => Reply::MinuteAdded,
            Mutation::MinusMinute => Reply::MinuteSubtracted,
            Mutation::SetRemainingSeconds(value) => Reply::SecondsSet(*value),
            Mutation::EndService => Reply::Farewell,
        }
    }
}

/// What a change did to the one field that it wrote: the value that it found
/// there under the lock, and the value that it stored in its place.
#[allow(inconsistent_fields)]
#[derive(Clone, Copy, Debug, PartialEq, Eq, Structural)]
pub enum Change {
    /// The ticking flag was written.
    Ticking { found: bool, stored: bool },
    /// The remaining seconds were written.
    RemainingSeconds { found: u16, stored: u16 },
    /// The termination flag was written.
    Finalize { found: bool, stored: bool },
}

impl Change {
    /// The field that was written.
    pub open spec fn field_spec(self) -> Field {
        match self {
            Change::Ticking { .. } => Field::Ticking,
            Change::RemainingSeconds { .. } => Field::RemainingSeconds,
            Change::Finalize { .. } => Field::Finalize,
        }
    }

    /// Is this what `mutation` does: its field, and the value stored the one
    /// that follows from the value found?
    pub open spec fn follows(self, mutation: Mutation, policy: UnderflowPolicy) -> bool {
        &&& self.field_spec() == mutation.field_spec()
        &&& match self {
            Change::Ticking { found, stored } => stored == mutation.ticking_after(found),
            Change::RemainingSeconds { found, stored } => stored == mutation.seconds_after(
                found,
                policy,
            ),
            Change::Finalize { found, stored } => stored == mutation.finalize_after(found),
        }
    }

    /// Does `state` hold, in the field that was written, the value that was
    /// found?
    pub open spec fn found_in(self, state: Snapshot) -> bool {
        match self {
            Change::Ticking { found, .. } => state.ticking == found,
            Change::RemainingSeconds { found, .. } => state.remaining_seconds == found,
            Change::Finalize { found, .. } => state.finalize == found,
        }
    }

    /// The state with the stored value in the field that was written, and the
    /// other two fields as they are.
    pub open spec fn stored_into(self, state: Snapshot) -> Snapshot {
        match self {
            Change::Ticking { stored, .. } => HourglassState { ticking: stored, ..state },
            Change::RemainingSeconds { stored, .. } => HourglassState {
                remaining_seconds: stored,
                ..state
            },
            Change::Finalize { stored, .. } => HourglassState { finalize: stored, ..state },
        }
    }
}

/// What a request to set the remaining seconds asks for: the change, or the
/// answer that refuses it. The value must be given and must be a number that
/// the counter can hold.
pub open spec fn requested_change(seconds: Option<Seq<char>>) -> Result<Mutation, Reply> {
    match seconds {
        None => Err(Reply::MissingArgument),
        Some(text) => match parsed_seconds(text) {
            Some(value) => Ok(Mutation::SetRemainingSeconds(value)),
            None => Err(Reply::WrongArgument),
        },
    }
}

/// The view of an optional text.
pub open spec fn text_of(seconds: Option<&str>) -> Option<Seq<char>> {
    match seconds {
        Some(text) => Some(text@),
        None => None,
    }
}

/// Validates a request to set the remaining seconds.
pub fn request_change(seconds: Option<&str>) -> (request: Result<Mutation, Reply>)
    ensures
        request == requested_change(text_of(seconds)),
{
    match seconds {
        None => Err(Reply::MissingArgument),
        Some(text) => match parse_seconds(text) {
            Some(value) => Ok(Mutation::SetRemainingSeconds(value)),
            None => Err(Reply::WrongArgument),
        },
    }
}

/// The state that a sequence of changes leads to, applied first to last with
/// nothing else touching the state.
pub open spec fn state_after(
    mutations: Seq<Mutation>,
    initial: Snapshot,
    policy: UnderflowPolicy,
) -> Snapshot
    decreases mutations.len(),
{
    if mutations.len() == 0 {
        initial
    } else {
        mutations.last().applied(state_after(mutations.drop_last(), initial, policy), policy)
    }
}

/// The state after the recorded changes were stored one by one, first to
/// last.
pub open spec fn state_stored(changes: Seq<Change>, initial: Snapshot) -> Snapshot
    decreases changes.len(),
{
    if changes.len() == 0 {
        initial
    } else {
        changes.last().stored_into(state_stored(changes.drop_last(), initial))
    }
}

/// Did each change find what the changes before it had left: was there no
/// other writer in between?
pub open spec fn uninterrupted(changes: Seq<Change>, initial: Snapshot) -> bool {
    forall|i: int|
        0 <= i < changes.len() ==> (#[trigger] changes[i]).found_in(
            state_stored(changes.take(i), initial),
        )
}

/// The snapshot that is put together from three reads, one lock at a time: the
/// ticking flag as it was at the first read, the remaining seconds as they
/// were at the second, the termination flag as it was at the third.
pub open spec fn snapshot_across(
    at_first_read: Snapshot,
    at_second_read: Snapshot,
    at_third_read: Snapshot,
) -> Snapshot {
    HourglassState {
        ticking: at_first_read.ticking,
        remaining_seconds: at_second_read.remaining_seconds,
        finalize: at_third_read.finalize,
    }
}

/// A change writes the one field that it names and leaves the other two as
/// they were.
pub proof fn lemma_change_writes_one_field(
    mutation: Mutation,
    state: Snapshot,
    policy: UnderflowPolicy,
)
    ensures
        mutation.field_spec() != Field::Ticking ==> mutation.applied(state, policy).ticking
            == state.ticking,
        mutation.field_spec() != Field::RemainingSeconds ==> mutation.applied(
            state,
            policy,
        ).remaining_seconds == state.remaining_seconds,
        mutation.field_spec() != Field::Finalize ==> mutation.applied(state, policy).finalize
            == state.finalize,
{
}

/// What a change did to its field is what the change does to a whole state
/// that held the value found: the stored value in that field, and the other
/// two fields untouched.
pub proof fn lemma_change_agrees_with_state(
    change: Change,
    mutation: Mutation,
    state: Snapshot,
    policy: UnderflowPolicy,
)
    requires
        change.follows(mutation, policy),
        change.found_in(state),
    ensures
        change.stored_into(state) == mutation.applied(state, policy),
{
}

/// A run of calls that no other writer interrupts leaves the state that the
/// changes asked for lead to, one after the other: what the calls report of
/// their writes adds up to the changes applied in order.
pub proof fn lemma_uninterrupted_run_follows_requests(
    mutations: Seq<Mutation>,
    changes: Seq<Change>,
    initial: Snapshot,
    policy: UnderflowPolicy,
)
    requires
        changes.len() == mutations.len(),
        forall|i: int|
            0 <= i < changes.len() ==> (#[trigger] changes[i]).follows(mutations[i], policy),
        uninterrupted(changes, initial),
    ensures
        state_stored(changes, initial) == state_after(mutations, initial, policy),
    decreases changes.len(),
{
    if changes.len() > 0 {
        let last = changes.len() - 1;
        let earlier = changes.drop_last();
        assert forall|i: int| 0 <= i < earlier.len() implies (#[trigger] earlier[i]).found_in(
            state_stored(earlier.take(i), initial),
        ) by {
            assert(earlier.take(i) =~= changes.take(i));
            assert(changes[i].found_in(state_stored(changes.take(i), initial)));
        }
        assert forall|i: int| 0 <= i < earlier.len() implies (#[trigger] earlier[i]).follows(
            mutations.drop_last()[i],
            policy,
        ) by {
            assert(changes[i].follows(mutations[i], policy));
        }
        lemma_uninterrupted_run_follows_requests(mutations.drop_last(), earlier, initial, policy);
        assert(changes.take(last) =~= earlier);
        assert(changes[last].found_in(state_stored(changes.take(last), initial)));
        assert(changes[last].follows(mutations[last], policy));
        lemma_change_agrees_with_state(
            changes[last],
            mutations[last],
            state_stored(earlier, initial),
            policy,
        );
    }
}

/// With no writer in between, the snapshot taken right after a call is the
/// state that the calls so far lead to: the state before the call, changed by
/// that call and by nothing else.
pub proof fn lemma_snapshot_reflects_last_call(
    mutations: Seq<Mutation>,
    initial: Snapshot,
    policy: UnderflowPolicy,
)
    requires
        mutations.len() > 0,
    ensures
        ({
            let before = state_after(mutations.drop_last(), initial, policy);
            let after = state_after(mutations, initial, policy);
            &&& snapshot_across(after, after, after) == after
            &&& after == mutations.last().applied(before, policy)
            &&& after.ticking == mutations.last().ticking_after(before.ticking)
            &&& after.remaining_seconds == mutations.last().seconds_after(
                before.remaining_seconds,
                policy,
            )
            &&& after.finalize == mutations.last().finalize_after(before.finalize)
        }),
{
}

/// Each value of a snapshot was in the state at one of the three reads.
pub proof fn lemma_snapshot_values_were_held(
    at_first_read: Snapshot,
    at_second_read: Snapshot,
    at_third_read: Snapshot,
)
    ensures
        snapshot_across(at_first_read, at_second_read, at_third_read).ticking
            == at_first_read.ticking,
        snapshot_across(at_first_read, at_second_read, at_third_read).remaining_seconds
            == at_second_read.remaining_seconds,
        snapshot_across(at_first_read, at_second_read, at_third_read).finalize
            == at_third_read.finalize,
{
}

/// A snapshot is not atomic: with writers between the reads, the three values
/// together may be a state that never was. From any state, a writer that flips
/// the ticking flag after the first read and one that adds a minute before the
/// second read leave the reader with such a snapshot.
pub proof fn lemma_snapshot_can_mix_states(state: Snapshot, policy: UnderflowPolicy)
    ensures
        ({
            let flip = if state.ticking {
                Mutation::Stop
            } else {
                Mutation::Start
            };
            let flipped = flip.applied(state, policy);
            let extended = Mutation::PlusMinute.applied(flipped, policy);
            let snapshot = snapshot_across(state, extended, extended);
            &&& snapshot != state
            &&& snapshot != flipped
            &&& snapshot != extended
        }),
{
}

/// No change takes a request for termination back.
pub proof fn lemma_finalize_is_kept(
    mutations: Seq<Mutation>,
    initial: Snapshot,
    policy: UnderflowPolicy,
)
    requires
        initial.finalize,
    ensures
        state_after(mutations, initial, policy).finalize,
    decreases mutations.len(),
{
    if mutations.len() > 0 {
        lemma_finalize_is_kept(mutations.drop_last(), initial, policy);
    }
}

/// Requesting termination sets the termination flag and nothing else.
pub proof fn lemma_end_service_finalizes(state: Snapshot, policy: UnderflowPolicy)
    ensures
        Mutation::EndService.applied(state, policy) == (HourglassState {
            ticking: state.ticking,
            remaining_seconds: state.remaining_seconds,
            finalize: true,
        }),
{
}

/// Adding a minute and then subtracting one leaves the state as it was,
/// whenever the subtraction wraps or the addition stayed within the 16-bit
/// range.
pub proof fn lemma_plus_minus_restores_state(state: Snapshot, policy: UnderflowPolicy)
    requires
        policy == UnderflowPolicy::Wrap || state.remaining_seconds + SECONDS_PER_MINUTE <= u16::MAX,
    ensures
        Mutation::MinusMinute.applied(Mutation::PlusMinute.applied(state, policy), policy)
            == state,
{
}

/// A request to set the remaining seconds that is refused asks for no change;
/// one that is accepted asks for exactly the value that its text stands for.
pub proof fn lemma_set_request(seconds: Option<Seq<char>>, state: Snapshot, policy: UnderflowPolicy)
    ensures
        match requested_change(seconds) {
            Ok(mutation) => seconds is Some && parsed_seconds(seconds->0) is Some
                && mutation.applied(state, policy) == (HourglassState {
                ticking: state.ticking,
                remaining_seconds: parsed_seconds(seconds->0)->0,
                finalize: state.finalize,
            }),
            Err(reply) => !reply.reports_change(),
        },
{
}

} // verus!
