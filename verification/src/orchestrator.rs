//! The order in which one run does its work, and the checks between its
//! steps.
//!
//! The caller does the work itself: it reads the input, times the two
//! computations and runs the watcher beside the second one. After each piece of
//! work it tells the `Orchestrator` what came of it, and is told what to do
//! next.

use vstd::prelude::*;

use crate::sequence::{fibonacci, lemma_fibonacci_positive, lemma_fibonacci_within_limit, valid_index};

verus! {

/// Where a run stands.
#[derive(Clone, Copy, Debug, PartialEq, Eq, Structural)]
pub enum Phase {
    /// The index is still to be settled.
    ResolveInput,
    /// The iterative computation is due.
    RunIterative,
    /// The watcher is to be started, now that its target is known.
    StartObserver,
    /// The recursive computation is due.
    RunRecursive,
    /// The watcher is to be waited for.
    JoinObserver,
    /// The results are to be shown.
    Report,
    /// The run is over.
    Done,
    /// The run was given up.
    Failed,
}

/// Why a run is given up.
#[derive(Clone, Copy, Debug, PartialEq, Eq, Structural)]
pub enum Fault {
    /// The index is outside the range that the computations accept.
    InvalidIndex(u8),
    /// The iterative computation gave zero, which is no term from index 1 on.
    EmptyTarget,
    /// The two computations disagree.
    ResultMismatch { iterative: u128, recursive: u128 },
    /// The count does not stand at the target after the recursion.
    CountMismatch { target: u128, count: u128 },
    /// The watcher stopped without having drawn its last frame.
    ObserverFailed,
    /// What was reported is not what the run was waiting for.
    OutOfOrder,
}

/// What the caller reports to the run.
#[derive(Clone, Copy, Debug, PartialEq, Eq, Structural)]
pub enum Event {
    /// The index has been settled.
    InputResolved(u8),
    /// The iterative computation gave `value` and took `nanos`.
    IterativeDone { value: u128, nanos: u64 },
    /// The watcher is running.
    ObserverStarted,
    /// The recursive computation gave `value`, left the counter at `count`
    /// and took `nanos`.
    RecursiveDone { value: u128, count: u128, nanos: u64 },
    /// The watcher has ended; `finished` says whether with its last frame.
    ObserverJoined { finished: bool },
    /// The results have been shown.
    Reported,
}

/// What both computations gave, and how long each took.
#[derive(Clone, Copy, Debug, PartialEq, Eq, Structural)]
pub struct Summary {
    pub index: u8,
    pub value: u128,
    pub iterative_nanos: u64,
    pub recursive_nanos: u64,
}

/// What the caller is to do next.
#[derive(Clone, Copy, Debug, PartialEq, Eq, Structural)]
pub enum Action {
    /// Run and time the iterative computation for this index.
    RunIterative(u8),
    /// Start the watcher with this target.
    StartObserver { target: u128 },
    /// Run and time the recursive computation for this index.
    RunRecursive(u8),
    /// Wait until the watcher has ended.
    JoinObserver,
    /// Show the results.
    Report(Summary),
    /// Wait for the user, then end successfully.
    AwaitExit,
    /// End at once, and unsuccessfully.
    Abort(Fault),
}

/// The state of one run.
#[derive(Clone, Copy, Debug, PartialEq, Eq, Structural)]
pub struct Orchestrator {
    /// Where the run stands.
    pub phase: Phase,
    /// The index, from `RunIterative` on.
    pub index: u8,
    /// What the iterative computation gave, from `StartObserver` on.
    pub target: u128,
    /// How long the iterative computation took, from `StartObserver` on.
    pub iterative_nanos: u64,
    /// How long the recursive computation took, from `JoinObserver` on.
    pub recursive_nanos: u64,
}

impl Orchestrator {
    /// The state in which every run begins.
    pub open spec fn initial() -> Orchestrator {
        Orchestrator {
            phase: Phase::ResolveInput,
            index: 0,
            target: 0,
            iterative_nanos: 0,
            recursive_nanos: 0,
        }
    }

    /// This run, given up for `fault`.
    pub open spec fn fail(self, fault: Fault) -> (Orchestrator, Action) {
        (Orchestrator { phase: Phase::Failed, ..self }, Action::Abort(fault))
    }

    /// What this run holds once both computations are done.
    pub open spec fn summary(self) -> Summary {
        Summary {
            index: self.index,
            value: self.target,
            iterative_nanos: self.iterative_nanos,
            recursive_nanos: self.recursive_nanos,
        }
    }

    /// The run after `event`, and what the caller is to do next.
    ///
    /// Each phase waits for one kind of event; any other ends the run as
    /// `OutOfOrder`. The index must be valid, the iterative result must not
    /// be zero, and the recursive result and the count must both equal the
    /// iterative result; the results are shown only after the watcher has
    /// ended with its last frame.
    pub open spec fn step(self, event: Event) -> (Orchestrator, Action) {
        match (self.phase, event) {
            (Phase::ResolveInput, Event::InputResolved(index)) => if valid_index(index) {
                (
                    Orchestrator { phase: Phase::RunIterative, index, ..self },
                    Action::RunIterative(index),
                )
            } else {
                self.fail(Fault::InvalidIndex(index))
            },
            (Phase::RunIterative, Event::IterativeDone { value, nanos }) => if value == 0 {
                self.fail(Fault::EmptyTarget)
            } else {
                (
                    Orchestrator {
                        phase: Phase::StartObserver,
                        target: value,
                        iterative_nanos: nanos,
                        ..self
                    },
                    Action::StartObserver { target: value },
                )
            },
            (Phase::StartObserver, Event::ObserverStarted) => (
                Orchestrator { phase: Phase::RunRecursive, ..self },
                Action::RunRecursive(self.index),
            ),
            (Phase::RunRecursive, Event::RecursiveDone { value, count, nanos }) => if value
                != self.target {
                self.fail(Fault::ResultMismatch { iterative: self.target, recursive: value })
            } else if count != self.target {
                self.fail(Fault::CountMismatch { target: self.target, count })
            } else {
                (
                    Orchestrator { phase: Phase::JoinObserver, recursive_nanos: nanos, ..self },
                    Action::JoinObserver,
                )
            },
            (Phase::JoinObserver, Event::ObserverJoined { finished }) => if finished {
                (Orchestrator { phase: Phase::Report, ..self }, Action::Report(self.summary()))
            } else {
                self.fail(Fault::ObserverFailed)
            },
            (Phase::Report, Event::Reported) => (
                Orchestrator { phase: Phase::Done, ..self },
                Action::AwaitExit,
            ),
            _ => self.fail(Fault::OutOfOrder),
        }
    }

    /// A run at its beginning.
    pub fn new() -> (run: Orchestrator)
        ensures
            run == Orchestrator::initial(),
    {
        Orchestrator {
            phase: Phase::ResolveInput,
            index: 0,
            target: 0,
            iterative_nanos: 0,
            recursive_nanos: 0,
        }
    }

    /// Takes in what the caller reports and says what to do next.
    pub fn advance(&mut self, event: Event) -> (action: Action)
        ensures
            (*final(self), action) == old(self).step(event),
    {
        let mut fault: Fault = Fault::OutOfOrder;
        match self.phase {
            Phase::ResolveInput => {
                if let Event::InputResolved(index) = event {
                    if crate::sequence::MIN_INDEX <= index && index <= crate::sequence::MAX_INDEX {
                        self.phase = Phase::RunIterative;
                        self.index = index;
                        return Action::RunIterative(index);
                    }
                    fault = Fault::InvalidIndex(index);
                }
            },
            Phase::RunIterative => {
                if let Event::IterativeDone { value, nanos } = event {
                    if value != 0 {
                        self.phase = Phase::StartObserver;
                        self.target = value;
                        self.iterative_nanos = nanos;
                        return Action::StartObserver { target: value };
                    }
                    fault = Fault::EmptyTarget;
                }
            },
            Phase::StartObserver => {
                if let Event::ObserverStarted = event {
                    self.phase = Phase::RunRecursive;
                    return Action::RunRecursive(self.index);
                }
            },
            Phase::RunRecursive => {
                if let Event::RecursiveDone { value, count, nanos } = event {
                    if value != self.target {
                        fault = Fault::ResultMismatch { iterative: self.target, recursive: value };
                    } else if count != self.target {
                        fault = Fault::CountMismatch { target: self.target, count };
                    } else {
                        self.phase = Phase::JoinObserver;
                        self.recursive_nanos = nanos;
                        return Action::JoinObserver;
                    }
                }
            },
            Phase::JoinObserver => {
                if let Event::ObserverJoined { finished } = event {
                    if finished {
                        self.phase = Phase::Report;
                        return Action::Report(
                            Summary {
                                index: self.index,
                                value: self.target,
                                iterative_nanos: self.iterative_nanos,
                                recursive_nanos: self.recursive_nanos,
                            },
                        );
                    }
                    fault = Fault::ObserverFailed;
                }
            },
            Phase::Report => {
                if let Event::Reported = event {
                    self.phase = Phase::Done;
                    return Action::AwaitExit;
                }
            },
            Phase::Done => {},
            Phase::Failed => {},
        }
        self.phase = Phase::Failed;
        Action::Abort(fault)
    }
}

/// A run that is told the truth goes through: for a valid index, if both
/// computations report the term of that index, the count stands at that term
/// and the watcher ends with its last frame, then the six steps follow one
/// another, nothing is given up, and the results shown are that term.
pub proof fn lemma_truthful_run_completes(index: u8, iterative_nanos: u64, recursive_nanos: u64)
    requires
        valid_index(index),
    ensures
        ({
            let term = fibonacci(index as nat) as u128;
            let (run1, action1) = Orchestrator::initial().step(Event::InputResolved(index));
            let (run2, action2) = run1.step(
                Event::IterativeDone { value: term, nanos: iterative_nanos },
            );
            let (run3, action3) = run2.step(Event::ObserverStarted);
            let (run4, action4) = run3.step(
                Event::RecursiveDone { value: term, count: term, nanos: recursive_nanos },
            );
            let (run5, action5) = run4.step(Event::ObserverJoined { finished: true });
            let (run6, action6) = run5.step(Event::Reported);
            &&& term == fibonacci(index as nat)
            &&& action1 == Action::RunIterative(index)
            &&& action2 == Action::StartObserver { target: term }
            &&& action3 == Action::RunRecursive(index)
            &&& action4 == Action::JoinObserver
            &&& action5 == Action::Report(
                Summary { index, value: term, iterative_nanos, recursive_nanos },
            )
            &&& action6 == Action::AwaitExit
            &&& run6.phase == Phase::Done
        }),
{
    lemma_fibonacci_positive(index as nat);
    lemma_fibonacci_within_limit(index as nat);
}

/// The results are never shown unless both computations agreed and the count
/// stood at their common result.
pub proof fn lemma_report_needs_agreement(run: Orchestrator, event: Event)
    requires
        run.step(event).0.phase == Phase::JoinObserver,
    ensures
        event matches Event::RecursiveDone { value, count, .. } && value == run.target && count
            == run.target,
        run.step(event).0.target == run.target,
{
}

/// A run that is over or was given up takes nothing more in.
pub proof fn lemma_ended_run_stays_ended(run: Orchestrator, event: Event)
    requires
        run.phase == Phase::Done || run.phase == Phase::Failed,
    ensures
        run.step(event) == run.fail(Fault::OutOfOrder),
{
}

} // verus!
