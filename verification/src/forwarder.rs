//! The whole set of listeners, one for each configured rule. The set is
//! finished when every listener has stopped; a listener that fails leaves
//! the others running.

use vstd::prelude::*;
use crate::config::Settings;
use crate::relay::IoFailure;
use crate::supervisor::{Supervisor, SupervisorView};

verus! {

/// A set of listeners as a mathematical value.
pub struct ForwarderView {
    /// For each rule, in the order of the settings, whether its listener
    /// is still running.
    pub running: Seq<bool>,
    /// The error of the listener that stopped first.
    pub first_error: Option<IoFailure>,
}

impl ForwarderView {
    /// A set of `count` listeners, all running.
    pub open spec fn started(count: nat) -> ForwarderView {
        ForwarderView { running: Seq::new(count, |i: int| true), first_error: None }
    }

    /// Whether every listener has stopped.
    pub open spec fn all_stopped(self) -> bool {
        forall|i: int| 0 <= i < self.running.len() ==> !#[trigger] self.running[i]
    }

    /// An error is held from the moment the first listener stops.
    pub open spec fn wf(self) -> bool {
        self.first_error is None ==> forall|i: int|
            0 <= i < self.running.len() ==> #[trigger] self.running[i]
    }

    /// The set after the listener at `index` has stopped with `error`:
    /// the other listeners are as they were, and the error is kept if it
    /// is the first.
    pub open spec fn after_stop(self, index: int, error: IoFailure) -> ForwarderView {
        ForwarderView {
            running: self.running.update(index, false),
            first_error: if self.first_error is Some {
                self.first_error
            } else {
                Some(error)
            },
        }
    }

    /// How the set has ended, if it has: with the first error once every
    /// listener has stopped, and in good order where there was none to
    /// run.
    pub open spec fn outcome(self) -> Option<Result<(), IoFailure>> {
        if !self.all_stopped() {
            None
        } else {
            match self.first_error {
                Some(error) => Some(Err(error)),
                None => Some(Ok(())),
            }
        }
    }
}

/// The listeners of all configured rules.
pub struct ForwarderSet {
    running: Vec<bool>,
    first_error: Option<IoFailure>,
}

impl View for ForwarderSet {
    type V = ForwarderView;

    closed spec fn view(&self) -> ForwarderView {
        ForwarderView { running: self.running@, first_error: self.first_error }
    }
}

impl ForwarderSet {
    /// Sets up one listener for each rule of `settings`, in their order.
    /// Each is to be run on its own.
    pub fn start(settings: &Settings) -> (started: (ForwarderSet, Vec<Supervisor>))
        ensures
            started.0@ == ForwarderView::started(settings.forward@.len()),
            started.0@.wf(),
            started.1@.len() == settings.forward@.len(),
            forall|i: int|
                0 <= i < settings.forward@.len() ==> (#[trigger] started.1@[i])@
                    == SupervisorView::starting(settings.forward@[i], settings.debug),
    {
        let mut running: Vec<bool> = Vec::new();
        let mut supervisors: Vec<Supervisor> = Vec::new();
        let count = settings.forward.len();
        let mut i: usize = 0;
        while i < count
            invariant
                count == settings.forward@.len(),
                i <= count,
                running@.len() == i,
                supervisors@.len() == i,
                forall|j: int| 0 <= j < i ==> #[trigger] running@[j],
                forall|j: int|
                    0 <= j < i ==> (#[trigger] supervisors@[j])@ == SupervisorView::starting(
                        settings.forward@[j],
                        settings.debug,
                    ),
            decreases count - i,
        {
            supervisors.push(Supervisor::new(&settings.forward[i], settings.debug));
            running.push(true);
            i = i + 1;
        }
        let set = ForwarderSet { running, first_error: None };
        assert(set@.running =~= ForwarderView::started(settings.forward@.len()).running);
        (set, supervisors)
    }

    /// The number of listeners in the set.
    pub fn len(&self) -> (count: usize)
        ensures
            count == self@.running.len(),
    {
        self.running.len()
    }

    /// Whether the listener at `index` is still running.
    pub fn is_running(&self, index: usize) -> (running: bool)
        ensures
            running == (index < self@.running.len() && self@.running[index as int]),
    {
        index < self.running.len() && self.running[index]
    }

    /// How the set has ended, if it has.
    pub fn outcome(&self) -> (outcome: Option<Result<(), IoFailure>>)
        ensures
            outcome == self@.outcome(),
    {
        let mut i: usize = 0;
        while i < self.running.len()
            invariant
                i <= self.running@.len(),
                forall|j: int| 0 <= j < i ==> !#[trigger] self.running@[j],
            decreases self.running@.len() - i,
        {
            if self.running[i] {
                assert(self@.running[i as int]);
                return None;
            }
            i = i + 1;
        }
        match &self.first_error {
            Some(error) => Some(Err(error.clone())),
            None => Some(Ok(())),
        }
    }

    /// Records that the listener at `index` has stopped with `error`, and
    /// says how the set has ended, if that was the last one running.
    pub fn on_stopped(&mut self, index: usize, error: IoFailure) -> (outcome: Option<
        Result<(), IoFailure>,
    >)
        requires
            old(self)@.wf(),
            index < old(self)@.running.len(),
            old(self)@.running[index as int],
        ensures
            final(self)@.wf(),
            final(self)@ == old(self)@.after_stop(index as int, error),
            outcome == final(self)@.outcome(),
    {
        self.running.set(index, false);
        if self.first_error.is_none() {
            self.first_error = Some(error);
        }
        self.outcome()
    }
}

/// A listener that stops leaves every other listener as it was, and the
/// set is not finished while any of them runs.
pub proof fn lemma_stop_leaves_others_running(
    set: ForwarderView,
    index: int,
    error: IoFailure,
    other: int,
)
    requires
        0 <= index < set.running.len(),
        0 <= other < set.running.len(),
        other != index,
    ensures
        set.after_stop(index, error).running[other] == set.running[other],
        set.running[other] ==> set.after_stop(index, error).outcome() is None,
{
    assert(set.after_stop(index, error).running[other] == set.running[other]);
}

/// The set ends with an error exactly when every listener has stopped
/// and there was at least one, and the error is that of the first to
/// stop.
pub proof fn lemma_set_ends_with_first_error(set: ForwarderView)
    requires
        set.wf(),
    ensures
        set.outcome() matches Some(Err(error)) ==> set.first_error == Some(error),
        set.outcome() == Some(Ok::<(), IoFailure>(())) ==> set.running.len() == 0,
        set.running.len() == 0 ==> set.outcome() is Some,
{
    if set.outcome() == Some(Ok::<(), IoFailure>(())) && set.running.len() > 0 {
        assert(set.running[0]);
    }
}

} // verus!
