use vstd::prelude::*;
use crate::classify::{classification, classify, PresenceClass};
use crate::device::{ClassificationPolicy, InputDeviceInfo};

verus! {

/// How long the device set must stay quiet before it is classified again.
pub const QUIET_WINDOW_MS: u64 = 1000;

/// How long the aggregator waits without any signal before it classifies
/// again anyway, in case a hotplug notification was lost.
pub const POLL_INTERVAL_MS: u64 = 120000;

/// Whether the aggregator is waiting for signals or for quiet.
#[derive(Clone, Copy, Debug, PartialEq, Eq, Structural)]
pub enum Phase {
    Idle,
    Settling,
}

/// What the aggregator is told: a hotplug signal came in, or the wait it
/// asked for ran out with no signal.
#[derive(Clone, Copy, Debug, PartialEq, Eq, Structural)]
pub enum DebounceEvent {
    Signal,
    Timeout,
}

/// What the aggregator asks for next.
#[derive(Clone, Copy, Debug, PartialEq, Eq, Structural)]
pub enum DebounceAction {
    /// Wait again, for as long as `wait_ms` says.
    Wait,
    /// Take a fresh snapshot and classify it now.
    Reclassify,
}

/// Turns a bursty stream of hotplug signals into a bounded rate of
/// reclassifications, and publishes a class only when it changes.
#[derive(Clone, Copy, Debug)]
pub struct DebounceAggregator {
    pub phase: Phase,
    /// The class that was last published.
    pub last_published: PresenceClass,
}

pub open spec fn next_phase(ph: Phase, ev: DebounceEvent) -> Phase {
    match ev {
        DebounceEvent::Signal => Phase::Settling,
        DebounceEvent::Timeout => Phase::Idle,
    }
}

pub open spec fn action_for(ph: Phase, ev: DebounceEvent) -> DebounceAction {
    match ev {
        DebounceEvent::Signal => DebounceAction::Wait,
        DebounceEvent::Timeout => DebounceAction::Reclassify,
    }
}

pub open spec fn wait_for(ph: Phase) -> u64 {
    match ph {
        Phase::Idle => POLL_INTERVAL_MS,
        Phase::Settling => QUIET_WINDOW_MS,
    }
}

/// What is published when `c` comes out of a classification and `last` was
/// published before: nothing if they are equal, else `c`.
pub open spec fn publication(last: PresenceClass, c: PresenceClass) -> Option<PresenceClass> {
    if c == last {
        None
    } else {
        Some(c)
    }
}

/// The phase after a sequence of events.
pub open spec fn phase_after(ph: Phase, evs: Seq<DebounceEvent>) -> Phase
    decreases evs.len(),
{
    if evs.len() == 0 {
        ph
    } else {
        phase_after(next_phase(ph, evs[0]), evs.drop_first())
    }
}

/// How many reclassifications a sequence of events asks for.
pub open spec fn reclassifications(ph: Phase, evs: Seq<DebounceEvent>) -> nat
    decreases evs.len(),
{
    if evs.len() == 0 {
        0
    } else {
        (if action_for(ph, evs[0]) == DebounceAction::Reclassify { 1nat } else { 0nat })
            + reclassifications(next_phase(ph, evs[0]), evs.drop_first())
    }
}

/// `n` hotplug signals, none separated by an elapsed wait.
pub open spec fn burst(n: nat) -> Seq<DebounceEvent> {
    Seq::new(n, |i: int| DebounceEvent::Signal)
}

impl DebounceAggregator {
    /// Idle, with no external keyboard published.
    pub fn new() -> (r: DebounceAggregator)
        ensures
            r.phase == Phase::Idle,
            r.last_published == PresenceClass::NoExternal,
    {
        DebounceAggregator { phase: Phase::Idle, last_published: PresenceClass::NoExternal }
    }

    /// How long to wait for the next signal: the quiet window while
    /// settling, the poll interval while idle.
    pub fn wait_ms(&self) -> (r: u64)
        ensures
            r == wait_for(self.phase),
    {
        match self.phase {
            Phase::Idle => POLL_INTERVAL_MS,
            Phase::Settling => QUIET_WINDOW_MS,
        }
    }

    /// Takes one event. A signal starts or restarts the quiet window; an
    /// elapsed wait, in either phase, asks for a reclassification.
    pub fn on_event(&mut self, ev: DebounceEvent) -> (r: DebounceAction)
        ensures
            final(self).phase == next_phase(old(self).phase, ev),
            final(self).last_published == old(self).last_published,
            r == action_for(old(self).phase, ev),
    {
        match ev {
            DebounceEvent::Signal => {
                self.phase = Phase::Settling;
                DebounceAction::Wait
            },
            DebounceEvent::Timeout => {
                self.phase = Phase::Idle;
                DebounceAction::Reclassify
            },
        }
    }

    /// Records the outcome of a classification, and returns the class to
    /// publish, or `None` where it equals the one published last.
    pub fn publish(&mut self, c: PresenceClass) -> (r: Option<PresenceClass>)
        ensures
            r == publication(old(self).last_published, c),
            final(self).last_published == c,
            final(self).phase == old(self).phase,
    {
        let r = if c == self.last_published {
            None
        } else {
            Some(c)
        };
        self.last_published = c;
        r
    }

    /// Classifies a fresh snapshot and records the outcome, returning the
    /// class to publish if it changed.
    pub fn reclassify(&mut self, devices: &Vec<InputDeviceInfo>, policy: &ClassificationPolicy) -> (r: Option<PresenceClass>)
        ensures
            r == publication(old(self).last_published, classification(devices@, *policy)),
            final(self).last_published == classification(devices@, *policy),
            final(self).phase == old(self).phase,
    {
        let c = classify(devices, policy);
        self.publish(c)
    }
}

/// A burst of hotplug signals, however long, followed by the quiet window
/// running out asks for exactly one reclassification, and leaves the
/// aggregator idle.
pub proof fn burst_reclassifies_once(ph: Phase, n: nat)
    ensures
        reclassifications(ph, burst(n).push(DebounceEvent::Timeout)) == 1,
        phase_after(ph, burst(n).push(DebounceEvent::Timeout)) == Phase::Idle,
    decreases n,
{
    let evs = burst(n).push(DebounceEvent::Timeout);
    if n == 0 {
        assert(evs[0] == DebounceEvent::Timeout);
        assert(evs.drop_first() =~= Seq::<DebounceEvent>::empty());
        assert(reclassifications(Phase::Idle, evs.drop_first()) == 0);
        assert(phase_after(Phase::Idle, evs.drop_first()) == Phase::Idle);
    } else {
        assert(evs[0] == DebounceEvent::Signal);
        assert(evs.drop_first() =~= burst((n - 1) as nat).push(DebounceEvent::Timeout));
        burst_reclassifies_once(Phase::Settling, (n - 1) as nat);
    }
}

/// Signals alone never ask for a reclassification.
pub proof fn signals_alone_never_reclassify(ph: Phase, n: nat)
    ensures
        reclassifications(ph, burst(n)) == 0,
        n > 0 ==> phase_after(ph, burst(n)) == Phase::Settling,
    decreases n,
{
    if n > 0 {
        assert(burst(n)[0] == DebounceEvent::Signal);
        assert(burst(n).drop_first() =~= burst((n - 1) as nat));
        signals_alone_never_reclassify(Phase::Settling, (n - 1) as nat);
    }
}

/// Of two successive classifications with the same outcome, at most one
/// is published: the second never is.
pub proof fn equal_outcomes_publish_at_most_once(last: PresenceClass, first: PresenceClass, second: PresenceClass)
    requires
        first == second,
    ensures
        publication(first, second) is None,
        !(publication(last, first) is Some && publication(first, second) is Some),
{
}

} // verus!
