//! What the watcher of a running computation does with each reading of the
//! count.

use vstd::prelude::*;

use crate::progress::ProgressSnapshot;

verus! {

/// What to do with one reading of the count.
#[derive(Clone, Copy, Debug, PartialEq, Eq, Structural)]
pub enum Observation {
    /// Draw the snapshot and read the count again.
    Redraw(ProgressSnapshot),
    /// Draw the snapshot, which is complete, and stop watching.
    Finish(ProgressSnapshot),
    /// The count is beyond the target, which no correct computation does:
    /// stop watching and fail.
    Overrun { observed: u128, target: u128 },
    /// The count did not reach the target within the readings allowed: stop
    /// watching and fail.
    Exhausted,
    /// The watcher had stopped before this reading.
    Stopped,
}

impl Observation {
    /// Whether watching goes on after this observation.
    pub open spec fn continues(self) -> bool {
        self is Redraw
    }
}

/// The watcher of one computation: it knows the count at which the work is
/// done, and how many more readings it may take before it gives up.
#[derive(Clone, Copy, Debug, PartialEq, Eq, Structural)]
pub struct Observer {
    /// The count at which the work is done.
    pub target: u128,
    /// How many readings short of the target may still be drawn.
    pub polls_left: u64,
    /// Whether the watcher is still watching.
    pub watching: bool,
}

impl Observer {
    /// A watcher is well formed when its target is not zero.
    pub open spec fn valid(self) -> bool {
        0 < self.target
    }

    /// This watcher after it has stopped.
    pub open spec fn stopped(self) -> Observer {
        Observer { watching: false, ..self }
    }

    /// The watcher after a reading of `sample`, and what to do with the
    /// reading.
    ///
    /// Once stopped, a watcher stays stopped. A reading above the target is
    /// an overrun; a reading equal to the target is drawn and ends the
    /// watching; a reading below it is drawn and uses up one of the readings
    /// left, and ends the watching where none is left.
    pub open spec fn step(self, sample: u128) -> (Observer, Observation) {
        if !self.watching {
            (self, Observation::Stopped)
        } else if sample > self.target {
            (self.stopped(), Observation::Overrun { observed: sample, target: self.target })
        } else if sample == self.target {
            (
                self.stopped(),
                Observation::Finish(ProgressSnapshot { current: sample, maximum: self.target }),
            )
        } else if self.polls_left == 0 {
            (self.stopped(), Observation::Exhausted)
        } else {
            (
                Observer { polls_left: (self.polls_left - 1) as u64, ..self },
                Observation::Redraw(ProgressSnapshot { current: sample, maximum: self.target }),
            )
        }
    }

    /// A watcher for a computation that is done at `target`, which may draw
    /// up to `poll_limit` readings short of the target. There is none for a
    /// target of zero.
    pub fn new(target: u128, poll_limit: u64) -> (observer: Option<Observer>)
        ensures
            observer == if 0 < target {
                Some(Observer { target, polls_left: poll_limit, watching: true })
            } else {
                None
            },
    {
        if 0 < target {
            Some(Observer { target, polls_left: poll_limit, watching: true })
        } else {
            None
        }
    }

    /// Whether the watcher is still watching.
    pub fn is_watching(&self) -> (watching: bool)
        ensures
            watching == self.watching,
    {
        self.watching
    }

    /// Takes one reading of the count and says what to do with it.
    pub fn poll(&mut self, sample: u128) -> (seen: Observation)
        requires
            old(self).valid(),
        ensures
            (*final(self), seen) == old(self).step(sample),
            final(self).valid(),
    {
        if !self.watching {
            Observation::Stopped
        } else if sample > self.target {
            self.watching = false;
            Observation::Overrun { observed: sample, target: self.target }
        } else if sample == self.target {
            self.watching = false;
            Observation::Finish(ProgressSnapshot { current: sample, maximum: self.target })
        } else if self.polls_left == 0 {
            self.watching = false;
            Observation::Exhausted
        } else {
            self.polls_left = self.polls_left - 1;
            Observation::Redraw(ProgressSnapshot { current: sample, maximum: self.target })
        }
    }
}

/// Every snapshot that a well-formed watcher hands out can be drawn, and the
/// one handed out last is complete.
pub proof fn lemma_snapshots_valid(observer: Observer, sample: u128)
    requires
        observer.valid(),
    ensures
        observer.step(sample).1 matches Observation::Redraw(snapshot) ==> snapshot.valid()
            && !snapshot.complete(),
        observer.step(sample).1 matches Observation::Finish(snapshot) ==> snapshot.valid()
            && snapshot.complete(),
{
}

/// The watching ends with a last frame exactly when a watcher that is still
/// watching reads the target itself.
pub proof fn lemma_finishes_exactly_at_target(observer: Observer, sample: u128)
    ensures
        observer.step(sample).1 is Finish <==> observer.watching && sample == observer.target,
        observer.step(sample).0.watching <==> observer.step(sample).1 is Redraw,
        observer.step(sample).0.target == observer.target,
{
}

/// The watching ends once: after any observation but `Redraw`, every later
/// reading finds the watcher stopped and leaves it as it is.
pub proof fn lemma_stops_once(observer: Observer, sample: u128, later: u128)
    requires
        !observer.step(sample).1.continues(),
    ensures
        observer.step(sample).0.step(later) == (observer.step(sample).0, Observation::Stopped),
{
}

/// The watching cannot go on for ever: each reading that is drawn and does
/// not end the watching uses up one of the readings left.
pub proof fn lemma_redraw_uses_budget(observer: Observer, sample: u128)
    requires
        observer.step(sample).1.continues(),
    ensures
        observer.step(sample).0.polls_left + 1 == observer.polls_left,
{
}

} // verus!
