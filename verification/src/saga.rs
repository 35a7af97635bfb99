//! Saga orchestrator: runs the steps of a workflow in order against one
//! context, and on the first failure undoes the steps that had succeeded, the
//! most recent first.

use vstd::prelude::*;

pub mod schedule;

verus! {

/// One step of a workflow, with the action that undoes it.
///
/// `executes`, `fails` and `compensates` say what the two actions may do to
/// the context; the orchestrator's contracts are stated over them. A step
/// that does not say otherwise may do anything.
pub trait SagaStep {
    /// The state that the steps of one workflow share.
    type Context;

    /// The error with which a step fails.
    type Error;

    /// `execute` may succeed and turn `before` into `after`.
    open spec fn executes(&self, before: Self::Context, after: Self::Context) -> bool {
        true
    }

    /// `execute` may fail with `error` and turn `before` into `after`.
    open spec fn fails(
        &self,
        before: Self::Context,
        after: Self::Context,
        error: Self::Error,
    ) -> bool {
        true
    }

    /// `compensate` may turn `before` into `after`.
    open spec fn compensates(&self, before: Self::Context, after: Self::Context) -> bool {
        true
    }

    /// Performs the step.
    fn execute(&self, context: &mut Self::Context) -> (result: Result<(), Self::Error>)
        ensures
            match result {
                Ok(_) => self.executes(*old(context), *final(context)),
                Err(error) => self.fails(*old(context), *final(context), error),
            },
    ;

    /// Undoes the step. It has no way to fail outwardly.
    fn compensate(&self, context: &mut Self::Context)
        ensures
            self.compensates(*old(context), *final(context)),
    ;
}

/// The steps of a workflow, in the order in which they run.
pub struct SagaOrchestrator<S: SagaStep> {
    steps: Vec<S>,
}

/// How a run of a workflow ended.
pub enum SagaReport<C, E> {
    /// Every step succeeded; the context is as the last step left it.
    Completed { context: C },
    /// The step at `failed_at` failed with `error`, and the steps before it
    /// were undone; the context is as the last compensation left it.
    Compensated { failed_at: usize, error: E, context: C },
}

impl<S: SagaStep> View for SagaOrchestrator<S> {
    type V = Seq<S>;

    /// The steps in the order in which they run.
    closed spec fn view(&self) -> Seq<S> {
        self.steps@
    }
}

impl<S: SagaStep> SagaOrchestrator<S> {
    /// The number of steps.
    pub open spec fn len(&self) -> nat {
        self@.len()
    }

    /// The step at place `i`.
    pub open spec fn step(&self, i: int) -> S {
        self@[i]
    }

    /// `contexts` is the context before and after each of the first `count`
    /// steps, every one of which succeeded.
    pub open spec fn ran_forward(&self, count: int, contexts: Seq<S::Context>) -> bool {
        &&& 0 <= count <= self.len()
        &&& contexts.len() == count + 1
        &&& forall|i: int|
            0 <= i < count ==> (#[trigger] self.step(i)).executes(contexts[i], contexts[i + 1])
    }

    /// `contexts` is the context before and after each compensation of the
    /// first `count` steps, undone from the last of them down to the first.
    pub open spec fn ran_backward(&self, count: int, contexts: Seq<S::Context>) -> bool {
        &&& 0 <= count <= self.len()
        &&& contexts.len() == count + 1
        &&& forall|i: int|
            0 <= i < count ==> (#[trigger] self.step(i)).compensates(
                contexts[count - 1 - i],
                contexts[count - i],
            )
    }

    /// A run from `start` may succeed in every step and end with `end`.
    pub open spec fn completes(&self, start: S::Context, end: S::Context) -> bool {
        exists|contexts: Seq<S::Context>|
            #[trigger] self.ran_forward(self.len() as int, contexts) && contexts[0] == start
                && contexts.last() == end
    }

    /// A run from `start` may succeed in the steps before `failed_at`, fail
    /// there with `error`, and leave `at_failure`.
    pub open spec fn fails_at(
        &self,
        start: S::Context,
        failed_at: int,
        error: S::Error,
        at_failure: S::Context,
    ) -> bool {
        &&& 0 <= failed_at < self.len()
        &&& exists|contexts: Seq<S::Context>|
            #[trigger] self.ran_forward(failed_at, contexts) && contexts[0] == start
                && self.step(failed_at).fails(contexts.last(), at_failure, error)
    }

    /// Undoing the steps before `failed_at`, the most recent first, may turn
    /// `at_failure` into `end`.
    pub open spec fn unwinds(
        &self,
        failed_at: int,
        at_failure: S::Context,
        end: S::Context,
    ) -> bool {
        exists|contexts: Seq<S::Context>|
            #[trigger] self.ran_backward(failed_at, contexts) && contexts[0] == at_failure
                && contexts.last() == end
    }

    /// An orchestrator without steps.
    pub fn new() -> (saga: Self)
        ensures
            saga@ == Seq::<S>::empty(),
    {
        SagaOrchestrator { steps: Vec::new() }
    }

    /// The number of steps.
    pub fn step_count(&self) -> (count: usize)
        ensures
            count == self.len(),
    {
        self.steps.len()
    }

    /// Adds a step behind those that are there.
    pub fn add_step(&mut self, step: S)
        ensures
            final(self)@ == old(self)@.push(step),
    {
        self.steps.push(step);
    }

    /// A run from `start` may fail at `failed_at` with `error` and, with the
    /// steps before it undone, end with `end`.
    pub open spec fn rolls_back(
        &self,
        start: S::Context,
        failed_at: int,
        error: S::Error,
        end: S::Context,
    ) -> bool {
        exists|at_failure: S::Context|
            #[trigger] self.fails_at(start, failed_at, error, at_failure) && self.unwinds(
                failed_at,
                at_failure,
                end,
            )
    }

    /// A run from `start` may end with `error`: some step fails with it, and
    /// the steps before that one are undone.
    pub open spec fn fails_with(&self, start: S::Context, error: S::Error) -> bool {
        exists|failed_at: int, end: S::Context| #[trigger]
            self.rolls_back(start, failed_at, error, end)
    }

    fn compensate(&self, executed: usize, context: &mut S::Context)
        requires
            executed <= self.len(),
        ensures
            self.unwinds(executed as int, *old(context), *final(context)),
    {
        let ghost mut trace: Seq<S::Context> = seq![*context];
        let mut left: usize = executed;
        while left > 0
            invariant
                left <= executed <= self.len(),
                trace.len() == executed - left + 1,
                trace[0] == *old(context),
                trace.last() == *context,
                forall|i: int|
                    left <= i < executed ==> (#[trigger] self.step(i)).compensates(
                        trace[executed - 1 - i],
                        trace[executed - i],
                    ),
            decreases left,
        {
            left -= 1;
            self.steps[left].compensate(context);
            proof {
                trace = trace.push(*context);
            }
        }
        assert(self.ran_backward(executed as int, trace));
    }

    /// Runs the steps in order against `context`. Where every step succeeds,
    /// no step is undone. At the first failure no further step runs, and the
    /// steps that had succeeded, and only those, are undone in reverse order.
    pub fn run_with_report(&self, context: S::Context) -> (report: SagaReport<S::Context, S::Error>)
        ensures
            match report {
                SagaReport::Completed { context: end } => self.completes(context, end),
                SagaReport::Compensated { failed_at, error, context: end } => self.rolls_back(
                    context,
                    failed_at as int,
                    error,
                    end,
                ),
            },
    {
        let mut current = context;
        let ghost mut trace: Seq<S::Context> = seq![context];
        let mut i: usize = 0;
        while i < self.steps.len()
            invariant
                i <= self.len(),
                self.ran_forward(i as int, trace),
                trace[0] == context,
                trace.last() == current,
            decreases self.len() - i,
        {
            let ghost before = current;
            let ghost earlier = trace;
            let result = self.steps[i].execute(&mut current);
            match result {
                Ok(_) => {
                    proof {
                        trace = earlier.push(current);
                        assert forall|k: int| 0 <= k < i + 1 implies (#[trigger] self.step(
                            k,
                        )).executes(trace[k], trace[k + 1]) by {
                            if k < i {
                                assert(trace[k] == earlier[k]);
                                assert(trace[k + 1] == earlier[k + 1]);
                            }
                        }
                    }
                },
                Err(error) => {
                    let ghost at_failure = current;
                    assert(self.fails_at(context, i as int, error, at_failure));
                    self.compensate(i, &mut current);
                    assert(self.rolls_back(context, i as int, error, current));
                    return SagaReport::Compensated { failed_at: i, error, context: current };
                },
            }
            i += 1;
        }
        assert(self.completes(context, current));
        SagaReport::Completed { context: current }
    }

    /// Runs the steps in order against `context` and returns the context as
    /// the last step left it, or the error of the first step that failed,
    /// after the steps before it have been undone in reverse order.
    pub fn run(&self, context: S::Context) -> (result: Result<S::Context, S::Error>)
        ensures
            match result {
                Ok(end) => self.completes(context, end),
                Err(error) => self.fails_with(context, error),
            },
    {
        match self.run_with_report(context) {
            SagaReport::Completed { context: end } => {
                assert(self.completes(context, end));
                Ok(end)
            },
            SagaReport::Compensated { failed_at, error, context: end } => {
                assert(self.rolls_back(context, failed_at as int, error, end));
                Err(error)
            },
        }
    }
}

} // verus!
