//! The decisions of the event loop: what to do with each snapshot that arrives,
//! and when the listener is to be stopped.

use crate::hourglass_state::Snapshot;
use vstd::prelude::*;

verus! {

/// Where the event loop stands.
#[derive(Clone, Copy, Debug, PartialEq, Eq, Structural)]
pub enum Lifecycle {
    /// Snapshots are received and observed.
    Running,
    /// A termination snapshot was received; the listener is being stopped.
    Draining,
    /// The listener has stopped. The loop does not resume.
    Stopped,
}

/// What the event loop is to do with a snapshot that it received.
#[derive(Clone, Copy, Debug, PartialEq, Eq, Structural)]
pub enum Directive {
    /// Record the snapshot.
    Observe(Snapshot),
    /// Stop the listener gracefully, and report back when it has stopped.
    StopListener,
    /// The snapshot came after termination was seen: leave it.
    Ignore,
}

impl Lifecycle {
    /// The state after a snapshot was received.
    pub open spec fn after_snapshot(self, snapshot: Snapshot) -> Lifecycle {
        if self == Lifecycle::Running && snapshot.finalize {
            Lifecycle::Draining
        } else {
            self
        }
    }

    /// What a snapshot asks of the loop in this state.
    pub open spec fn directive_for(self, snapshot: Snapshot) -> Directive {
        if self != Lifecycle::Running {
            Directive::Ignore
        } else if snapshot.finalize {
            Directive::StopListener
        } else {
            Directive::Observe(snapshot)
        }
    }

    /// The state after the listener confirmed that it has stopped.
    pub open spec fn after_listener_stopped(self) -> Lifecycle {
        if self == Lifecycle::Draining {
            Lifecycle::Stopped
        } else {
            self
        }
    }

    /// The state after the snapshots were received one by one, first to last.
    pub open spec fn after_snapshots(self, snapshots: Seq<Snapshot>) -> Lifecycle
        decreases snapshots.len(),
    {
        if snapshots.len() == 0 {
            self
        } else {
            self.after_snapshots(snapshots.drop_last()).after_snapshot(snapshots.last())
        }
    }

    /// What the loop, started in this state, is told on receiving the snapshot
    /// at `index`, after those before it.
    pub open spec fn directive_at(self, snapshots: Seq<Snapshot>, index: int) -> Directive {
        self.after_snapshots(snapshots.take(index)).directive_for(snapshots[index])
    }

    /// The state in which the event loop starts.
    pub fn new() -> (state: Lifecycle)
        ensures
            state == Lifecycle::Running,
    {
        Lifecycle::Running
    }

    /// Takes one snapshot off the channel: gives the next state and what the
    /// loop is to do. Only a running loop reacts; the first termination
    /// snapshot moves it to draining.
    pub fn receive(self, snapshot: Snapshot) -> (step: (Lifecycle, Directive))
        ensures
            step.0 == self.after_snapshot(snapshot),
            step.1 == self.directive_for(snapshot),
    {
        match self {
            Lifecycle::Running => {
                if snapshot.finalize {
                    (Lifecycle::Draining, Directive::StopListener)
                } else {
                    (Lifecycle::Running, Directive::Observe(snapshot))
                }
            },
            Lifecycle::Draining => (Lifecycle::Draining, Directive::Ignore),
            Lifecycle::Stopped => (Lifecycle::Stopped, Directive::Ignore),
        }
    }

    /// Records that the listener has stopped: a draining loop is then stopped.
    pub fn listener_stopped(self) -> (state: Lifecycle)
        ensures
            state == self.after_listener_stopped(),
    {
        match self {
            Lifecycle::Draining => Lifecycle::Stopped,
            Lifecycle::Running => Lifecycle::Running,
            Lifecycle::Stopped => Lifecycle::Stopped,
        }
    }

    /// Has the loop come to its end?
    pub fn is_stopped(&self) -> (stopped: bool)
        ensures
            stopped == (*self == Lifecycle::Stopped),
    {
        match self {
            Lifecycle::Stopped => true,
            _ => false,
        }
    }
}

/// Does one of the first `count` snapshots request termination?
pub open spec fn finalize_among(snapshots: Seq<Snapshot>, count: int) -> bool {
    exists|j: int| 0 <= j < count && j < snapshots.len() && (#[trigger] snapshots[j]).finalize
}

/// A loop that starts running stays running until the first termination
/// snapshot, and is draining from then on.
pub proof fn lemma_running_until_finalize(snapshots: Seq<Snapshot>)
    ensures
        Lifecycle::Running.after_snapshots(snapshots) == if finalize_among(
            snapshots,
            snapshots.len() as int,
        ) {
            Lifecycle::Draining
        } else {
            Lifecycle::Running
        },
    decreases snapshots.len(),
{
    if snapshots.len() > 0 {
        let earlier = snapshots.drop_last();
        let last = snapshots.len() - 1;
        lemma_running_until_finalize(earlier);
        if finalize_among(earlier, earlier.len() as int) {
            let j = choose|j: int| 0 <= j < earlier.len() && (#[trigger] earlier[j]).finalize;
            assert(snapshots[j].finalize);
        } else if snapshots.last().finalize {
            assert(snapshots[last].finalize);
        } else if finalize_among(snapshots, snapshots.len() as int) {
            let j = choose|j: int| 0 <= j < snapshots.len() && (#[trigger] snapshots[j]).finalize;
            assert(earlier[j].finalize);
        }
    }
}

/// Snapshots are handled in the order of their arrival: each one before the
/// first termination snapshot is observed as it is, that one stops the
/// listener, and those after it are left alone.
pub proof fn lemma_directives_in_arrival_order(snapshots: Seq<Snapshot>, index: int)
    requires
        0 <= index < snapshots.len(),
    ensures
        Lifecycle::Running.directive_at(snapshots, index) == if finalize_among(snapshots, index) {
            Directive::Ignore
        } else if snapshots[index].finalize {
            Directive::StopListener
        } else {
            Directive::Observe(snapshots[index])
        },
{
    let earlier = snapshots.take(index);
    lemma_running_until_finalize(earlier);
    if finalize_among(earlier, earlier.len() as int) {
        let j = choose|j: int| 0 <= j < earlier.len() && (#[trigger] earlier[j]).finalize;
        assert(snapshots[j].finalize);
    } else if finalize_among(snapshots, index) {
        let j = choose|j: int| 0 <= j < index && (#[trigger] snapshots[j]).finalize;
        assert(earlier[j].finalize);
    }
}

/// The listener is told to stop at most once, whatever arrives.
pub proof fn lemma_listener_stopped_once(snapshots: Seq<Snapshot>, first: int, second: int)
    requires
        0 <= first < snapshots.len(),
        0 <= second < snapshots.len(),
        Lifecycle::Running.directive_at(snapshots, first) == Directive::StopListener,
        Lifecycle::Running.directive_at(snapshots, second) == Directive::StopListener,
    ensures
        first == second,
{
    lemma_directives_in_arrival_order(snapshots, first);
    lemma_directives_in_arrival_order(snapshots, second);
    if first < second {
        assert(snapshots[first].finalize);
    } else if second < first {
        assert(snapshots[second].finalize);
    }
}

/// Once a termination snapshot has arrived, the listener has been told to
/// stop.
pub proof fn lemma_finalize_stops_listener(snapshots: Seq<Snapshot>) -> (index: int)
    requires
        finalize_among(snapshots, snapshots.len() as int),
    ensures
        0 <= index < snapshots.len(),
        snapshots[index].finalize,
        Lifecycle::Running.directive_at(snapshots, index) == Directive::StopListener,
    decreases snapshots.len(),
{
    let earlier = snapshots.drop_last();
    if finalize_among(earlier, earlier.len() as int) {
        let index = lemma_finalize_stops_listener(earlier);
        assert(snapshots.take(index) =~= earlier.take(index));
        index
    } else {
        let j = choose|j: int| 0 <= j < snapshots.len() && (#[trigger] snapshots[j]).finalize;
        if j < earlier.len() {
            assert(earlier[j].finalize);
        }
        let index = snapshots.len() - 1;
        assert(snapshots.take(index) =~= earlier);
        lemma_running_until_finalize(earlier);
        index
    }
}

/// A stopped loop stays stopped, and a loop that is not running asks nothing
/// more of the listener.
pub proof fn lemma_stopped_is_terminal(state: Lifecycle, snapshot: Snapshot)
    ensures
        Lifecycle::Stopped.after_snapshot(snapshot) == Lifecycle::Stopped,
        Lifecycle::Stopped.after_listener_stopped() == Lifecycle::Stopped,
        state != Lifecycle::Running ==> state.directive_for(snapshot) == Directive::Ignore,
        Lifecycle::Running.after_snapshot(snapshot).after_listener_stopped() == if snapshot.finalize {
            Lifecycle::Stopped
        } else {
            Lifecycle::Running
        },
{
}

} // verus!
