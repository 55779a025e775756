//! Driving one task to completion.
//!
//! The driver makes the calls and takes the decisions; its caller owns the thread. Each
//! turn makes one call on the task. On `Wait` the caller suspends until the waker of the
//! context is signalled, on `Again` it takes the next turn at once, and on `Finished` it has
//! the result. The driver drains the task after its result and reclaims it, so that the
//! result it hands out is that of a finalized task.
use crate::future::reclaim;
use crate::future::AbortSafeFuture;
use crate::future::Advance;
use crate::future::Stage;
use std::task::Context;
use std::task::Poll;
use vstd::pervasive::unreached;
use vstd::prelude::*;

verus! {

/// How far a driver has come with its task.
pub enum Progress<T, R> {
    /// The task is being stepped.
    Stepping(T),
    /// The task has produced the buffered result and is being drained.
    Draining(T, R),
    /// The task is finalized and reclaimed, and its result handed out.
    Finished,
}

/// The holder of a single task, from its first step to its reclamation. The task stays
/// where it is for all that time.
pub struct Driver<Fut: AbortSafeFuture> {
    task: Option<Fut>,
    result: Option<Fut::Output>,
}

impl<Fut: AbortSafeFuture> Driver<Fut> {
    /// How far the driver has come.
    pub closed spec fn progress(&self) -> Progress<Fut, Fut::Output> {
        match (self.task, self.result) {
            (Some(task), None) => Progress::Stepping(task),
            (Some(task), Some(v)) => Progress::Draining(task, v),
            (None, _) => Progress::Finished,
        }
    }

    /// A turn may be taken: there is a task, and if it is yet to be stepped, it runs.
    pub open spec fn runnable(&self) -> bool {
        match self.progress() {
            Progress::Stepping(task) => task.stage() is Running,
            Progress::Draining(_, _) => true,
            Progress::Finished => false,
        }
    }

    /// Takes hold of a task.
    pub fn new(task: Fut) -> (r: Self)
        ensures
            r.progress() == Progress::<Fut, Fut::Output>::Stepping(task),
    {
        Driver { task: Some(task), result: None }
    }

    /// Whether the result has been handed out.
    pub fn is_finished(&self) -> (r: bool)
        ensures
            r <==> self.progress() is Finished,
    {
        self.task.is_none()
    }

    /// The transition after a step of the task. A result is buffered and the task goes on to
    /// be drained; without one, nothing changes.
    pub fn stepped(&mut self, outcome: Poll<Fut::Output>) -> (r: Advance<Fut::Output>)
        requires
            old(self).progress() is Stepping,
        ensures
            match outcome {
                Poll::Pending => r is Wait && *final(self) == *old(self),
                Poll::Ready(v) => r is Again && final(self).progress() == Progress::<
                    Fut,
                    Fut::Output,
                >::Draining(old(self).progress()->Stepping_0, v),
            },
    {
        match outcome {
            Poll::Pending => Advance::Wait,
            Poll::Ready(v) => {
                self.result = Some(v);
                Advance::Again
            },
        }
    }

    /// The transition after a drain of the task. Once the task is finalized its storage is
    /// reclaimed and the buffered result is handed out; before that, nothing changes.
    pub fn drained(&mut self, outcome: Poll<()>) -> (r: Advance<Fut::Output>)
        requires
            old(self).progress() is Draining,
            outcome is Ready ==> old(self).progress()->Draining_0.stage() is Finalized,
        ensures
            match outcome {
                Poll::Pending => r is Wait && *final(self) == *old(self),
                Poll::Ready(_) => r == Advance::Finished(old(self).progress()->Draining_1)
                    && final(self).progress() is Finished,
            },
    {
        match outcome {
            Poll::Pending => Advance::Wait,
            Poll::Ready(_) => {
                match (self.task.take(), self.result.take()) {
                    (Some(task), Some(v)) => {
                        reclaim(task);
                        Advance::Finished(v)
                    },
                    _ => unreached(),
                }
            },
        }
    }

    /// What one turn may make of a driver: one call on its task, a step while the task runs
    /// and a drain once its result is buffered, followed by the transition that the outcome
    /// of that call demands.
    pub open spec fn may_turn_to(&self, next: Self, r: Advance<Fut::Output>) -> bool {
        match self.progress() {
            Progress::Stepping(task) => {
                ||| {
                    &&& r is Wait
                    &&& next.progress() is Stepping
                    &&& task.steps_to(next.progress()->Stepping_0, Poll::Pending)
                }
                ||| {
                    &&& r is Again
                    &&& next.progress() is Draining
                    &&& task.steps_to(
                        next.progress()->Draining_0,
                        Poll::Ready(next.progress()->Draining_1),
                    )
                }
            },
            Progress::Draining(task, v) => {
                ||| {
                    &&& r is Wait
                    &&& next.progress() is Draining
                    &&& next.progress()->Draining_1 == v
                    &&& task.drains_to(next.progress()->Draining_0)
                    &&& !(next.progress()->Draining_0.stage() is Finalized)
                }
                ||| {
                    &&& r == Advance::Finished(v)
                    &&& next.progress() is Finished
                    &&& exists|last: Fut| #[trigger] task.drains_to(last) && last.stage() is Finalized
                }
            },
            Progress::Finished => false,
        }
    }

    /// The result of a task is independent of the drain that follows it: while the task
    /// drains the buffered result stays as it is, and it is that result which is handed
    /// out, in the turn in which the drain completes and not before.
    pub proof fn lemma_result_outlives_drain(&self, next: Self, r: Advance<Fut::Output>)
        requires
            self.progress() is Draining,
            self.may_turn_to(next, r),
        ensures
            r is Wait ==> next.progress() is Draining && next.progress()->Draining_1
                == self.progress()->Draining_1,
            !(r is Wait) ==> r == Advance::Finished(self.progress()->Draining_1)
                && next.progress() is Finished,
            r is Finished ==> exists|last: Fut| #[trigger]
                self.progress()->Draining_0.drains_to(last) && last.stage() is Finalized,
    {
    }

    /// A turn hands out a result only from a task that has produced one and has been drained
    /// since, and after that turn the driver takes no other.
    pub proof fn lemma_finished_is_final(&self, next: Self, r: Advance<Fut::Output>)
        requires
            self.may_turn_to(next, r),
            r is Finished,
        ensures
            self.progress() is Draining,
            next.progress() is Finished,
            !next.runnable(),
            forall|after: Self, again: Advance<Fut::Output>| !next.may_turn_to(after, again),
    {
    }

    /// Takes one turn: a step while the task runs, a drain once it has produced its result.
    /// The result is handed out, unchanged, by the turn in which the drain completes, and
    /// from then on no further turn may be taken.
    pub fn turn(&mut self, cx: &mut Context<'_>) -> (r: Advance<Fut::Output>)
        requires
            old(self).runnable(),
        ensures
            old(self).may_turn_to(*final(self), r),
            !(r is Finished) <==> final(self).runnable(),
    {
        let stepping = self.result.is_none();
        match &mut self.task {
            Some(task) => {
                if stepping {
                    let outcome = task.poll(cx);
                    self.stepped(outcome)
                } else {
                    let outcome = task.poll_drop(cx);
                    proof {
                        let drained = *task;
                        assert(old(self).progress()->Draining_0.drains_to(drained));
                    }
                    self.drained(outcome)
                }
            },
            None => unreached(),
        }
    }
}

} // verus!
