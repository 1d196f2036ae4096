//! Bringing the tracing subsystem up, one step after the other.
//!
//! The channel and the interposer are constructed first. Then the interposer is
//! installed as the only tracker of the process, tracking is switched on, and
//! the consumer is started. Only then may the traced workload begin. Installing
//! and starting are the host's work: it is told here what to do next, and
//! reports back what came of it.

use crate::channel::{ChannelState, EventChannel, CHANNEL_CAPACITY};
use tracking_allocator::AllocationRegistry;
use vstd::prelude::*;

verus! {

/// How far the subsystem has come.
#[derive(Clone, Copy, Debug, PartialEq, Eq, Structural)]
pub enum Phase {
    /// Channel and interposer exist; no tracker is installed yet.
    Constructed,
    /// The interposer is installed and tracking is on; no consumer runs yet.
    Tracking,
    /// The consumer runs: the traced workload may begin.
    Ready,
    /// Another tracker was installed already. There is no way on from here.
    Failed,
}

/// What the host reports back.
#[derive(Clone, Copy, Debug, PartialEq, Eq, Structural)]
pub enum Signal {
    /// The interposer is now the tracker of the process.
    TrackerInstalled,
    /// The process has a tracker already, and keeps it.
    TrackerRejected,
    /// The consumer has been started.
    ConsumerStarted,
}

/// What the host is to do next.
#[derive(Clone, Copy, Debug, PartialEq, Eq, Structural)]
pub enum Directive {
    /// Install the interposer as the tracker of the process.
    InstallTracker,
    /// Start the consumer.
    StartConsumer,
    /// Nothing is left to do: go on with the workload.
    Proceed,
    /// Give up and end the process.
    Abort,
}

impl Phase {
    /// The phase that follows when `signal` arrives in this one. A report that
    /// the phase was not waiting for changes nothing.
    pub open spec fn spec_advance(self, signal: Signal) -> Phase {
        match (self, signal) {
            (Phase::Constructed, Signal::TrackerInstalled) => Phase::Tracking,
            (Phase::Constructed, Signal::TrackerRejected) => Phase::Failed,
            (Phase::Tracking, Signal::ConsumerStarted) => Phase::Ready,
            _ => self,
        }
    }

    /// What the host is to do in this phase.
    pub open spec fn spec_directive(self) -> Directive {
        match self {
            Phase::Constructed => Directive::InstallTracker,
            Phase::Tracking => Directive::StartConsumer,
            Phase::Ready => Directive::Proceed,
            Phase::Failed => Directive::Abort,
        }
    }

    /// The phase reached from this one after the reports in `signals`, taken
    /// in order.
    pub open spec fn run(self, signals: Seq<Signal>) -> Phase
        decreases signals.len(),
    {
        if signals.len() == 0 {
            self
        } else {
            self.run(signals.drop_last()).spec_advance(signals.last())
        }
    }

    /// Takes a report from the host and returns the phase that follows.
    ///
    /// When the tracker has just been installed, tracking is switched on here,
    /// before the host is asked to start the consumer.
    pub fn advance(self, signal: Signal) -> (next: Phase)
        ensures
            next == self.spec_advance(signal),
    {
        match (self, signal) {
            (Phase::Constructed, Signal::TrackerInstalled) => {
                enable_tracking();
                Phase::Tracking
            },
            (Phase::Constructed, Signal::TrackerRejected) => Phase::Failed,
            (Phase::Tracking, Signal::ConsumerStarted) => Phase::Ready,
            _ => self,
        }
    }

    /// What the host is to do in this phase.
    pub fn directive(self) -> (directive: Directive)
        ensures
            directive == self.spec_directive(),
    {
        match self {
            Phase::Constructed => Directive::InstallTracker,
            Phase::Tracking => Directive::StartConsumer,
            Phase::Ready => Directive::Proceed,
            Phase::Failed => Directive::Abort,
        }
    }
}

/// Begins the tracing of allocations. This is the first step: it makes the
/// channel that the interposer will send on and the consumer will receive
/// from, with room for `CHANNEL_CAPACITY` events, and installs nothing yet.
/// From here on the host does what the phase directs and reports back.
pub fn trace_allocations() -> (begun: (EventChannel, Phase))
    ensures
        begun.0@ == ChannelState::fresh(CHANNEL_CAPACITY as nat),
        begun.1 == Phase::Constructed,
{
    (EventChannel::new(CHANNEL_CAPACITY), Phase::Constructed)
}

/// Calls `tracking_allocator::AllocationRegistry::enable_tracking`, which sets
/// the flag of the process that lets the allocator report to the installed
/// tracker. It takes nothing and returns nothing, so nothing is claimed of it.
#[verifier::external_body]
fn enable_tracking() {
    AllocationRegistry::enable_tracking();
}

/// A second installation is fatal: when the process has a tracker already, the
/// start fails, the host is told to abort, and no later report changes that.
pub proof fn lemma_rejected_install_is_fatal(later: Seq<Signal>)
    ensures
        Phase::Constructed.spec_advance(Signal::TrackerRejected) == Phase::Failed,
        Phase::Failed.spec_directive() == Directive::Abort,
        Phase::Failed.run(later) == Phase::Failed,
    decreases later.len(),
{
    if later.len() > 0 {
        lemma_rejected_install_is_fatal(later.drop_last());
    }
}

/// A rejected installation leaves alone what is already up: a subsystem whose
/// tracker is installed stays in its phase, it does not fail and its tracking
/// is not switched off.
pub proof fn lemma_rejection_spares_installed_tracker(phase: Phase)
    requires
        phase == Phase::Tracking || phase == Phase::Ready,
    ensures
        phase.spec_advance(Signal::TrackerRejected) == phase,
{
}

/// Once ready, always ready: no report takes the subsystem back.
pub proof fn lemma_ready_is_final(signals: Seq<Signal>)
    ensures
        Phase::Ready.run(signals) == Phase::Ready,
    decreases signals.len(),
{
    if signals.len() > 0 {
        lemma_ready_is_final(signals.drop_last());
    }
}

/// The report at position `i` says that the tracker was installed, and no
/// report before it says that an installation was rejected.
pub open spec fn installed_at(signals: Seq<Signal>, i: int) -> bool {
    &&& 0 <= i < signals.len()
    &&& signals[i] == Signal::TrackerInstalled
    &&& forall|k: int| 0 <= k < i ==> signals[k] != Signal::TrackerRejected
}

/// The report at position `j` says that the consumer was started.
pub open spec fn started_at(signals: Seq<Signal>, j: int) -> bool {
    0 <= j < signals.len() && signals[j] == Signal::ConsumerStarted
}

/// The steps come in order. Tracking is on only after the tracker was
/// installed, with no installation rejected before. The workload may begin
/// only after that and, later, the start of the consumer.
pub proof fn lemma_ready_only_in_order(signals: Seq<Signal>)
    ensures
        Phase::Constructed.run(signals) == Phase::Tracking ==> exists|i: int|
            installed_at(signals, i),
        Phase::Constructed.run(signals) == Phase::Ready ==> exists|i: int, j: int|
            installed_at(signals, i) && i < j && started_at(signals, j),
    decreases signals.len(),
{
    if signals.len() > 0 {
        let earlier = signals.drop_last();
        let last: int = signals.len() - 1;
        lemma_ready_only_in_order(earlier);
        let before = Phase::Constructed.run(earlier);
        let after = Phase::Constructed.run(signals);
        if before == Phase::Constructed {
            if after == Phase::Tracking {
                lemma_constructed_means_no_verdict(earlier);
                assert forall|k: int| 0 <= k < last implies signals[k]
                    != Signal::TrackerRejected by {
                    assert(signals[k] == earlier[k]);
                }
                assert(installed_at(signals, last));
            }
        } else if before == Phase::Tracking {
            let i: int = choose|i: int| installed_at(earlier, i);
            lemma_installed_at_extends(earlier, signals.last(), i);
            assert(signals == earlier.push(signals.last()));
            if after == Phase::Ready {
                assert(started_at(signals, last));
            }
        } else if before == Phase::Ready {
            let (i, j): (int, int) = choose|i: int, j: int|
                installed_at(earlier, i) && i < j && started_at(earlier, j);
            lemma_installed_at_extends(earlier, signals.last(), i);
            assert(signals == earlier.push(signals.last()));
            assert(started_at(signals, j));
        }
    }
}

/// What holds of the reports so far still holds when one more has come.
proof fn lemma_installed_at_extends(signals: Seq<Signal>, next: Signal, i: int)
    requires
        installed_at(signals, i),
    ensures
        installed_at(signals.push(next), i),
{
}

/// While the start still waits for the installation, the host has reported
/// neither an installation nor a rejection.
proof fn lemma_constructed_means_no_verdict(signals: Seq<Signal>)
    requires
        Phase::Constructed.run(signals) == Phase::Constructed,
    ensures
        forall|k: int| 0 <= k < signals.len() ==> signals[k] == Signal::ConsumerStarted,
    decreases signals.len(),
{
    if signals.len() > 0 {
        let earlier = signals.drop_last();
        lemma_constructed_means_no_verdict(earlier);
        assert forall|k: int| 0 <= k < signals.len() implies signals[k]
            == Signal::ConsumerStarted by {
            if k < earlier.len() {
                assert(signals[k] == earlier[k]);
            }
        }
    }
}

} // verus!
