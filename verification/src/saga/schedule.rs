//! The order of a workflow's actions, for a driver that performs the steps
//! itself: which step to execute or undo next, given how the last action ended.

use vstd::prelude::*;

verus! {

/// What the driver of a workflow does next.
#[derive(Debug, Clone, Copy, PartialEq, Eq, Structural)]
pub enum SagaAction {
    /// Execute the step at this place.
    Execute(usize),
    /// Undo the step at this place.
    Compensate(usize),
    /// Every step succeeded: return the context.
    Complete,
    /// A step failed and what ran before it is undone: return that step's error.
    Abort,
}

/// The first action of a workflow of `steps` steps.
pub open spec fn first_action(steps: usize) -> SagaAction {
    if steps == 0 {
        SagaAction::Complete
    } else {
        SagaAction::Execute(0)
    }
}

/// The action that follows `action`. After a step that succeeded comes the
/// next step, or the end; after a step that failed, and after a compensation
/// however it ended, comes the compensation of the step before, or the end.
pub open spec fn next_action(steps: usize, action: SagaAction, succeeded: bool) -> SagaAction {
    match action {
        SagaAction::Execute(i) => if succeeded {
            if i + 1 < steps {
                SagaAction::Execute((i + 1) as usize)
            } else {
                SagaAction::Complete
            }
        } else if i > 0 {
            SagaAction::Compensate((i - 1) as usize)
        } else {
            SagaAction::Abort
        },
        SagaAction::Compensate(i) => if i > 0 {
            SagaAction::Compensate((i - 1) as usize)
        } else {
            SagaAction::Abort
        },
        SagaAction::Complete => SagaAction::Complete,
        SagaAction::Abort => SagaAction::Abort,
    }
}

/// The place of a driver in a workflow.
pub struct SagaCursor {
    steps: usize,
    action: SagaAction,
}

impl SagaCursor {
    /// The number of steps of the workflow.
    pub closed spec fn steps(&self) -> usize {
        self.steps
    }

    /// The action that is due.
    pub closed spec fn due(&self) -> SagaAction {
        self.action
    }

    /// A step that is due lies in the workflow.
    #[verifier::type_invariant]
    closed spec fn in_bounds(&self) -> bool {
        match self.action {
            SagaAction::Execute(i) => i < self.steps,
            SagaAction::Compensate(i) => i < self.steps,
            _ => true,
        }
    }

    /// The start of a workflow of `steps` steps.
    pub fn new(steps: usize) -> (cursor: Self)
        ensures
            cursor.steps() == steps,
            cursor.due() == first_action(steps),
    {
        if steps == 0 {
            SagaCursor { steps, action: SagaAction::Complete }
        } else {
            SagaCursor { steps, action: SagaAction::Execute(0) }
        }
    }

    /// The action that is due; a step that is due lies in the workflow.
    pub fn action(&self) -> (action: SagaAction)
        ensures
            action == self.due(),
            match action {
                SagaAction::Execute(i) => i < self.steps(),
                SagaAction::Compensate(i) => i < self.steps(),
                _ => true,
            },
    {
        proof {
            use_type_invariant(self);
        }
        self.action
    }

    /// Moves on after the action that was due has been performed;
    /// `succeeded` says how a step ended and means nothing for a compensation.
    pub fn advance(&mut self, succeeded: bool) -> (action: SagaAction)
        ensures
            final(self).steps() == old(self).steps(),
            final(self).due() == next_action(old(self).steps(), old(self).due(), succeeded),
            action == final(self).due(),
    {
        proof {
            use_type_invariant(&*self);
        }
        let next = match self.action {
            SagaAction::Execute(i) => {
                if succeeded {
                    if i + 1 < self.steps {
                        SagaAction::Execute(i + 1)
                    } else {
                        SagaAction::Complete
                    }
                } else if i > 0 {
                    SagaAction::Compensate(i - 1)
                } else {
                    SagaAction::Abort
                }
            },
            SagaAction::Compensate(i) => {
                if i > 0 {
                    SagaAction::Compensate(i - 1)
                } else {
                    SagaAction::Abort
                }
            },
            SagaAction::Complete => SagaAction::Complete,
            SagaAction::Abort => SagaAction::Abort,
        };
        self.action = next;
        next
    }
}

/// The action that is due after `done` actions of a run in which the step at
/// `failing` fails, if the run comes to it, and every other step succeeds.
pub open spec fn action_after(steps: usize, failing: Option<usize>, done: nat) -> SagaAction
    decreases done,
{
    if done == 0 {
        first_action(steps)
    } else {
        let last = action_after(steps, failing, (done - 1) as nat);
        next_action(steps, last, failing.is_none() || last != SagaAction::Execute(failing.unwrap()))
    }
}

/// A run in which every step succeeds executes the steps in their order and
/// then completes; it undoes nothing.
pub proof fn run_without_failure(steps: usize, done: nat)
    ensures
        done < steps ==> action_after(steps, None, done) == SagaAction::Execute(done as usize),
        done >= steps ==> action_after(steps, None, done) == SagaAction::Complete,
    decreases done,
{
    if done > 0 {
        run_without_failure(steps, (done - 1) as nat);
    }
}

/// A run whose step at `failing` fails executes the steps up to that one in
/// their order, then undoes the steps before it from the last to the first,
/// then aborts. The failing step and the steps behind it are never undone,
/// and the steps behind it never run.
pub proof fn run_with_failure(steps: usize, failing: usize, done: nat)
    requires
        failing < steps,
    ensures
        done <= failing ==> action_after(steps, Some(failing), done) == SagaAction::Execute(
            done as usize,
        ),
        failing < done <= 2 * failing ==> action_after(steps, Some(failing), done)
            == SagaAction::Compensate((2 * failing - done) as usize),
        done > 2 * failing ==> action_after(steps, Some(failing), done) == SagaAction::Abort,
    decreases done,
{
    if done > 0 {
        run_with_failure(steps, failing, (done - 1) as nat);
    }
}

} // verus!
