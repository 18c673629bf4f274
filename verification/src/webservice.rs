//! The request handlers: each carries out one change or one read on the shared
//! state and, after a change, sends a snapshot to the event loop.

use crate::channel::{channel_capacity, send_snapshot, unbounded_channel};
use crate::control::{request_change, requested_change, text_of, Change, Mutation};
use crate::hourglass_state::{initial_snapshot, HourglassState, Snapshot};
use crate::reply::Reply;
use crate::seconds::UnderflowPolicy;
use crate::store::{flags_held, seconds_held, GuardedState};
use crossbeam_channel::{Receiver, Sender};
use vstd::prelude::*;

verus! {

/// What the request handlers share: the live state and the sending end of the
/// channel to the event loop.
pub struct WebServiceData {
    hourglass_state: GuardedState,
    tx: Sender<Snapshot>,
    policy: UnderflowPolicy,
}

/// A request that was handled.
#[derive(Clone, Copy, Debug, PartialEq, Eq, Structural)]
pub struct Handled {
    /// The answer for the caller.
    pub reply: Reply,
    /// What was written to the state, if the request changed it.
    pub change: Option<Change>,
    /// The snapshot that was sent to the event loop, if the request changed
    /// the state.
    pub emitted: Option<Snapshot>,
}

/// The channel to the event loop has no receiver any more. The change that
/// the request asked for has been made all the same.
#[derive(Clone, Copy, Debug, PartialEq, Eq, Structural)]
pub struct ChannelClosed {
    /// What was written to the state before the channel was tried.
    pub change: Change,
    /// The snapshot that could not be delivered.
    pub undelivered: Snapshot,
}

impl Handled {
    /// Settles a request that changed the state, once its snapshot was handed
    /// to the channel: the answer with the snapshot where the channel took it,
    /// the failure with the snapshot that came back where it did not.
    pub fn settle(
        reply: Reply,
        change: Change,
        snapshot: Snapshot,
        delivery: Result<(), Snapshot>,
    ) -> (result: Result<Handled, ChannelClosed>)
        ensures
            result == match delivery {
                Ok(_) => Ok::<Handled, ChannelClosed>(
                    Handled { reply, change: Some(change), emitted: Some(snapshot) },
                ),
                Err(returned) => Err(ChannelClosed { change, undelivered: returned }),
            },
    {
        match delivery {
            Ok(_) => Ok(Handled { reply, change: Some(change), emitted: Some(snapshot) }),
            Err(returned) => Err(ChannelClosed { change, undelivered: returned }),
        }
    }

    /// Settles a request that left the state alone: the answer, no change and
    /// no snapshot.
    pub fn unchanged(reply: Reply) -> (handled: Handled)
        ensures
            handled == (Handled { reply, change: None, emitted: None }),
    {
        Handled { reply, change: None, emitted: None }
    }

    /// Is this how a request for `mutation` ends when the channel takes the
    /// snapshot: the confirmation of the change, the change as it was made,
    /// and the one snapshot that was sent?
    pub open spec fn confirms(self, mutation: Mutation, policy: UnderflowPolicy) -> bool {
        &&& self.reply == mutation.reply_spec()
        &&& self.change matches Some(change) && change.follows(mutation, policy)
        &&& self.emitted is Some
    }
}

impl ChannelClosed {
    /// Is this how a request for `mutation` ends when the channel is closed:
    /// the change was made all the same?
    pub open spec fn after(self, mutation: Mutation, policy: UnderflowPolicy) -> bool {
        self.change.follows(mutation, policy)
    }
}

/// How a request for `mutation` on the live state `state` may end, whatever
/// the channel does. Either way the change was made: the value found and the
/// value stored are values that the lock of the written field has held. And
/// each value of the snapshot, sent or come back, is one that its own lock has
/// held.
pub open spec fn performed(
    state: GuardedState,
    result: Result<Handled, ChannelClosed>,
    mutation: Mutation,
    policy: UnderflowPolicy,
) -> bool {
    match result {
        Ok(handled) => {
            &&& handled.confirms(mutation, policy)
            &&& state.has_seen(handled.change->0)
            &&& state.has_held(handled.emitted->0)
        },
        Err(closed) => {
            &&& closed.after(mutation, policy)
            &&& state.has_seen(closed.change)
            &&& state.has_held(closed.undelivered)
        },
    }
}

impl WebServiceData {
    #[verifier::type_invariant]
    spec fn sends_without_waiting(self) -> bool {
        channel_capacity(self.tx) is None
    }

    /// The policy that the service was made with.
    pub closed spec fn policy_spec(self) -> UnderflowPolicy {
        self.policy
    }

    /// The live state that the handlers work on.
    pub closed spec fn state(self) -> GuardedState {
        self.hourglass_state
    }

    /// The bound of the channel to the event loop: `None` where it has none.
    pub closed spec fn channel_bound(self) -> Option<usize> {
        channel_capacity(self.tx)
    }

    /// Makes the shared data of a service together with the receiving end of
    /// its channel. The state starts out not ticking, with twenty minutes
    /// left and no termination requested. The channel has no bound, so that
    /// no handler ever waits for the event loop.
    pub fn with_channel(policy: UnderflowPolicy) -> (ends: (WebServiceData, Receiver<Snapshot>))
        ensures
            ends.0.policy_spec() == policy,
            ends.0.state().has_held(initial_snapshot()),
            ends.0.channel_bound() is None,
    {
        let (tx, rx) = unbounded_channel();
        let hourglass_state = HourglassState::guarded(HourglassState::initial());
        (WebServiceData { hourglass_state, tx, policy }, rx)
    }

    /// What subtracting a minute does below sixty seconds.
    pub fn policy(&self) -> (policy: UnderflowPolicy)
        ensures
            policy == self.policy_spec(),
    {
        self.policy
    }

    /// A snapshot of the live state, as the handlers send it: each value is
    /// one that its own lock has held.
    pub fn snapshot(&self) -> (snapshot: Snapshot)
        ensures
            self.state().has_held(snapshot),
    {
        self.hourglass_state.to_parcel()
    }

    /// Carries out a change in two steps: the change itself on the live
    /// state, then a snapshot of the state to the event loop. The change is
    /// not taken back when the channel turns out to be closed.
    pub fn perform(&self, mutation: Mutation) -> (result: Result<Handled, ChannelClosed>)
        ensures
            performed(self.state(), result, mutation, self.policy_spec()),
    {
        let change = self.hourglass_state.apply(&mutation, self.policy);
        let snapshot = self.hourglass_state.to_parcel();
        proof {
            use_type_invariant(self);
        }
        let delivery = send_snapshot(&self.tx, snapshot);
        Handled::settle(mutation.reply(), change, snapshot, delivery)
    }
}

/// Starts the countdown.
pub fn start(data: &WebServiceData) -> (result: Result<Handled, ChannelClosed>)
    ensures
        performed(data.state(), result, Mutation::Start, data.policy_spec()),
{
    data.perform(Mutation::Start)
}

/// Stops the countdown.
pub fn stop(data: &WebServiceData) -> (result: Result<Handled, ChannelClosed>)
    ensures
        performed(data.state(), result, Mutation::Stop, data.policy_spec()),
{
    data.perform(Mutation::Stop)
}

/// Adds a minute to the remaining seconds.
pub fn plus_minute(data: &WebServiceData) -> (result: Result<Handled, ChannelClosed>)
    ensures
        performed(data.state(), result, Mutation::PlusMinute, data.policy_spec()),
{
    data.perform(Mutation::PlusMinute)
}

/// Subtracts a minute from the remaining seconds.
pub fn minus_minute(data: &WebServiceData) -> (result: Result<Handled, ChannelClosed>)
    ensures
        performed(data.state(), result, Mutation::MinusMinute, data.policy_spec()),
{
    data.perform(Mutation::MinusMinute)
}

/// Reads the ticking flag. Nothing is sent to the event loop. The flag
/// answered is one that the ticking lock has held.
pub fn get_ticking(data: &WebServiceData) -> (reply: Reply)
    ensures
        reply matches Reply::Ticking(ticking) && flags_held(data.state().ticking).contains(
            ticking,
        ),
{
    Reply::Ticking(data.hourglass_state.read_ticking())
}

/// Reads the remaining seconds. Nothing is sent to the event loop. The value
/// answered is one that the lock of the remaining seconds has held.
pub fn get_remaining_seconds(data: &WebServiceData) -> (reply: Reply)
    ensures
        reply matches Reply::RemainingSeconds(seconds) && seconds_held(
            data.state().remaining_seconds,
        ).contains(seconds),
{
    Reply::RemainingSeconds(data.hourglass_state.read_remaining_seconds())
}

/// Sets the remaining seconds to the value that `seconds` stands for. Where no
/// value is given, or the text is no number that the counter can hold, the
/// state is left alone, nothing is sent, and the answer says so.
pub fn set_remaining_seconds(seconds: Option<&str>, data: &WebServiceData) -> (result: Result<
    Handled,
    ChannelClosed,
>)
    ensures
        match requested_change(text_of(seconds)) {
            Err(refusal) => result == Ok::<Handled, ChannelClosed>(
                Handled { reply: refusal, change: None, emitted: None },
            ),
            Ok(mutation) => performed(data.state(), result, mutation, data.policy_spec()),
        },
{
    match request_change(seconds) {
        Ok(mutation) => data.perform(mutation),
        Err(refusal) => Ok(Handled::unchanged(refusal)),
    }
}

/// Requests termination. The listener is stopped later, by the event loop,
/// once the snapshot has reached it.
pub fn end_service(data: &WebServiceData) -> (result: Result<Handled, ChannelClosed>)
    ensures
        performed(data.state(), result, Mutation::EndService, data.policy_spec()),
{
    data.perform(Mutation::EndService)
}

} // verus!
