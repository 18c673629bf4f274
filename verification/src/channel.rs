//! The channel that carries snapshots to the event loop.

use crate::hourglass_state::Snapshot;
use crossbeam_channel::{Receiver, Sender};
use vstd::prelude::*;

verus! {

/// `crossbeam_channel::Sender`, the sending end of a channel, carried as an
/// opaque value.
#[verifier::external_type_specification]
#[verifier::external_body]
#[verifier::reject_recursive_types(T)]
pub struct ExSender<T>(Sender<T>);

/// `crossbeam_channel::Receiver`, the receiving end of a channel, carried as
/// an opaque value.
#[verifier::external_type_specification]
#[verifier::external_body]
#[verifier::reject_recursive_types(T)]
pub struct ExReceiver<T>(Receiver<T>);

/// The capacity that the channel behind a sender was made with, as
/// `Sender::capacity` reports it: `None` for a channel without a bound.
pub uninterp spec fn channel_capacity(tx: Sender<Snapshot>) -> Option<usize>;

/// Makes a channel by `crossbeam_channel::unbounded`. The contract claims that
/// the channel has no bound: its buffer grows with the messages that wait in
/// it, and `Sender::capacity` reports `None`.
#[verifier::external_body]
pub(crate) fn unbounded_channel() -> (ends: (Sender<Snapshot>, Receiver<Snapshot>))
    ensures
        channel_capacity(ends.0) is None,
{
    crossbeam_channel::unbounded()
}

/// Hands a snapshot to the channel by `Sender::send`. It is asked only of a
/// channel without a bound, where the call does not wait for room. The
/// contract claims that a failed call gives back the message that it was
/// handed. When the call fails is left open: it does so once every receiver is
/// gone.
#[verifier::external_body]
pub(crate) fn send_snapshot(tx: &Sender<Snapshot>, snapshot: Snapshot) -> (delivery: Result<
    (),
    Snapshot,
>)
    requires
        channel_capacity(*tx) is None,
    ensures
        delivery matches Err(returned) ==> returned == snapshot,
{
    match tx.send(snapshot) {
        Ok(()) => Ok(()),
        Err(crossbeam_channel::SendError(returned)) => Err(returned),
    }
}

} // verus!
