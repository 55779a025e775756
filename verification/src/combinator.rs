//! The adapter for ordinary futures and the sequencing combinator.
use crate::future::reclaim;
use crate::future::report;
use crate::future::AbortSafeFuture;
use crate::future::Advance;
use crate::future::AsyncDrop;
use crate::future::Stage;
use crate::task::pending_future;
use crate::task::pin_box;
use crate::task::poll_pinned;
use crate::task::ready_future;
use futures::future::Pending;
use futures::future::Ready;
use std::future::Future;
use std::pin::Pin;
use std::task::Context;
use std::task::Poll;
use vstd::pervasive::unreached;
use vstd::prelude::*;

verus! {

/// Lifts an ordinary future into the protocol. Dropping such a future releases all that it
/// holds, so the adapter drains in a single call, by discarding it.
#[verifier::reject_recursive_types(Fut)]
pub struct Compat<Fut> {
    inner: Option<Pin<Box<Fut>>>,
}

impl<Fut> Compat<Fut> {
    /// The wrapped future is still held.
    pub closed spec fn holds(&self) -> bool {
        self.inner is Some
    }

    /// Wraps a future that has not completed yet. The future is moved to the heap, so that
    /// it keeps its address while the adapter itself is moved about.
    pub fn new(inner: Fut) -> (r: Self)
        ensures
            r.holds(),
    {
        Compat { inner: Some(pin_box(inner)) }
    }
}

impl<Fut: Future> Compat<Fut> {
    /// What follows a poll of the wrapped future: its outcome is passed on as it is, and
    /// with a result the future is discarded on the spot.
    pub fn settle(&mut self, outcome: Poll<Fut::Output>) -> (r: Poll<Fut::Output>)
        ensures
            r == outcome,
            outcome is Ready ==> !final(self).holds(),
            outcome is Pending ==> *final(self) == *old(self),
    {
        match outcome {
            Poll::Ready(v) => {
                self.inner = None;
                Poll::Ready(v)
            },
            Poll::Pending => Poll::Pending,
        }
    }
}

/// A task that never produces a result.
pub fn pending<T>() -> (r: Compat<Pending<T>>)
    ensures
        r.holds(),
{
    Compat::new(pending_future())
}

/// A task that produces `t` at its first step.
pub fn ready<T>(t: T) -> (r: Compat<Ready<T>>)
    ensures
        r.holds(),
{
    Compat::new(ready_future(t))
}

impl<Fut> AsyncDrop for Compat<Fut> {
    open spec fn stage(&self) -> Stage {
        if self.holds() {
            Stage::Running
        } else {
            Stage::Finalized
        }
    }

    /// A drain leaves nothing behind.
    open spec fn drains_to(&self, next: Self) -> bool {
        !next.holds()
    }

    /// Discards the wrapped future, if it is still held, and reports `Ready` at once: an
    /// ordinary future releases everything when it is dropped.
    fn poll_drop(&mut self, cx: &mut Context<'_>) -> (r: Poll<()>)
        ensures
            r is Ready,
    {
        self.inner = None;
        Poll::Ready(())
    }
}

impl<Fut: Future> AbortSafeFuture for Compat<Fut> {
    type Output = Fut::Output;

    /// The wrapped future decides what a step reports. It is held exactly as long as it
    /// reports `Pending`.
    open spec fn steps_to(&self, next: Self, r: Poll<Fut::Output>) -> bool {
        r is Ready <==> !next.holds()
    }

    /// Polls the wrapped future once and, when it completes, discards it before the result
    /// is reported.
    fn poll(&mut self, cx: &mut Context<'_>) -> (r: Poll<Self::Output>)
    {
        let outcome = match &mut self.inner {
            Some(fut) => poll_pinned(fut, cx),
            None => unreached(),
        };
        self.settle(outcome)
    }
}

/// The state of a sequencer, as its contracts see it.
pub enum Phase<A, X, B, Y> {
    /// The first task is held and no output of it is buffered. It is being stepped or, once
    /// the sequencer has been asked to drain, drained.
    RunningFirst(A),
    /// The first task has produced the buffered output and is being drained.
    DrainingFirst(A, X),
    /// The second task is held and no output of it is buffered. It is being stepped or,
    /// once the sequencer has been asked to drain, drained.
    RunningSecond(B),
    /// The second task has produced the buffered output and is being drained.
    DrainingSecond(B, Y),
    /// The result has been handed out; the sequencer itself is not yet finalized.
    Done,
    /// Terminal.
    Finalized,
}

enum ThenInner<Fut1: AbortSafeFuture, Fut2: AbortSafeFuture, F> {
    Fut1(Fut1, Option<Fut1::Output>, Option<F>),
    Fut2(Fut2, Option<Fut2::Output>),
    Done,
    Canceled,
}

/// Runs a first task, feeds its output to a transform, and runs the task that comes back.
pub struct Then<Fut1, Fut2, F> where Fut1: AbortSafeFuture, Fut2: AbortSafeFuture {
    inner: ThenInner<Fut1, Fut2, F>,
    invoked: Ghost<nat>,
}

/// The transform takes every output of the first task, and whatever it returns is a task
/// that may be stepped.
pub open spec fn total<X, B: AsyncDrop, F: FnOnce(X) -> B>(f: F) -> bool {
    &&& forall|x: X| call_requires(f, (x,))
    &&& forall|x: X, b: B| call_ensures(f, (x,), b) ==> b.stage() is Running
}

impl<Fut1, Fut2, F> Then<Fut1, Fut2, F> where Fut1: AbortSafeFuture, Fut2: AbortSafeFuture {
    /// The state of the sequencer.
    pub closed spec fn phase(&self) -> Phase<Fut1, Fut1::Output, Fut2, Fut2::Output> {
        match self.inner {
            ThenInner::Fut1(a, None, _) => Phase::RunningFirst(a),
            ThenInner::Fut1(a, Some(x), _) => Phase::DrainingFirst(a, x),
            ThenInner::Fut2(b, None) => Phase::RunningSecond(b),
            ThenInner::Fut2(b, Some(y)) => Phase::DrainingSecond(b, y),
            ThenInner::Done => Phase::Done,
            ThenInner::Canceled => Phase::Finalized,
        }
    }

    /// The transform, as long as it has neither been consumed nor dropped.
    pub closed spec fn transform(&self) -> Option<F> {
        match self.inner {
            ThenInner::Fut1(_, _, f) => f,
            _ => None,
        }
    }

    /// How often the transform has been invoked.
    pub closed spec fn invocations(&self) -> nat {
        self.invoked@
    }

    /// The count of invocations agrees with the state: none while the first task is held,
    /// one from then on.
    pub open spec fn wf(&self) -> bool {
        match self.phase() {
            Phase::RunningFirst(_) | Phase::DrainingFirst(_, _) => self.invocations() == 0,
            _ => self.invocations() == 1 && self.transform() is None,
        }
    }

    /// The transition after a step of the first task. A result is buffered and the first
    /// task goes on to be drained; without one, nothing changes.
    pub fn first_stepped(&mut self, outcome: Poll<Fut1::Output>) -> (r: Advance<Fut2::Output>)
        requires
            old(self).phase() is RunningFirst,
        ensures
            old(self).wf() ==> final(self).wf(),
            match outcome {
                Poll::Pending => r is Wait && *final(self) == *old(self),
                Poll::Ready(x) => {
                    &&& r is Again
                    &&& final(self).phase() == Phase::<
                        Fut1,
                        Fut1::Output,
                        Fut2,
                        Fut2::Output,
                    >::DrainingFirst(old(self).phase()->RunningFirst_0, x)
                    &&& final(self).transform() == old(self).transform()
                    &&& final(self).invocations() == old(self).invocations()
                },
            },
    {
        match outcome {
            Poll::Pending => Advance::Wait,
            Poll::Ready(x) => {
                match &mut self.inner {
                    ThenInner::Fut1(_, tmp, _) => {
                        *tmp = Some(x);
                    },
                    _ => unreached(),
                }
                Advance::Again
            },
        }
    }

    /// The transition after a step of the second task. A result is buffered and the second
    /// task goes on to be drained; without one, nothing changes.
    pub fn second_stepped(&mut self, outcome: Poll<Fut2::Output>) -> (r: Advance<Fut2::Output>)
        requires
            old(self).phase() is RunningSecond,
        ensures
            old(self).wf() ==> final(self).wf(),
            match outcome {
                Poll::Pending => r is Wait && *final(self) == *old(self),
                Poll::Ready(y) => {
                    &&& r is Again
                    &&& final(self).phase() == Phase::<
                        Fut1,
                        Fut1::Output,
                        Fut2,
                        Fut2::Output,
                    >::DrainingSecond(old(self).phase()->RunningSecond_0, y)
                    &&& final(self).transform() == old(self).transform()
                    &&& final(self).invocations() == old(self).invocations()
                },
            },
    {
        match outcome {
            Poll::Pending => Advance::Wait,
            Poll::Ready(y) => {
                match &mut self.inner {
                    ThenInner::Fut2(_, tmp) => {
                        *tmp = Some(y);
                    },
                    _ => unreached(),
                }
                Advance::Again
            },
        }
    }

    /// The transition after a drain of the second task. Once the second task is finalized
    /// its storage is reclaimed and the buffered output is the result of the sequencer;
    /// before that, nothing changes.
    pub fn second_drained(&mut self, outcome: Poll<()>) -> (r: Advance<Fut2::Output>)
        requires
            old(self).phase() is DrainingSecond,
            outcome is Ready ==> old(self).phase()->DrainingSecond_0.stage() is Finalized,
        ensures
            old(self).wf() ==> final(self).wf(),
            match outcome {
                Poll::Pending => r is Wait && *final(self) == *old(self),
                Poll::Ready(_) => {
                    &&& r == Advance::Finished(old(self).phase()->DrainingSecond_1)
                    &&& final(self).phase() is Done
                    &&& final(self).transform() is None
                    &&& final(self).invocations() == old(self).invocations()
                },
            },
    {
        match outcome {
            Poll::Pending => Advance::Wait,
            Poll::Ready(_) => {
                let mut state = ThenInner::Done;
                std::mem::swap(&mut self.inner, &mut state);
                match state {
                    ThenInner::Fut2(fut2, Some(y)) => {
                        reclaim(fut2);
                        Advance::Finished(y)
                    },
                    _ => unreached(),
                }
            },
        }
    }
}

impl<Fut1, Fut2, F> Then<Fut1, Fut2, F> where
    Fut1: AbortSafeFuture,
    Fut2: AbortSafeFuture,
    F: FnOnce(Fut1::Output) -> Fut2,
 {
    /// A sequencer that holds `fut1` and the transform `f`, neither of them touched yet.
    pub fn new(fut1: Fut1, f: F) -> (r: Self)
        ensures
            r.phase() == Phase::<Fut1, Fut1::Output, Fut2, Fut2::Output>::RunningFirst(fut1),
            r.transform() == Some(f),
            r.invocations() == 0,
            r.wf(),
            r.stage() == r.lifecycle(),
    {
        Then { inner: ThenInner::Fut1(fut1, None, Some(f)), invoked: Ghost(0) }
    }

    /// The stage of a sequencer. It runs while it can still make progress towards its
    /// result: while its active task runs or a buffered output waits for the drain of that
    /// task, and, before the second task exists, while it holds a total transform. A
    /// sequencer that was drained early is finalized once the first task is; one that
    /// reached the second task is finalized when that task is, or through its own terminal
    /// state.
    pub open spec fn lifecycle(&self) -> Stage {
        match self.phase() {
            Phase::RunningFirst(a) => if self.transform() is Some && total::<
                Fut1::Output,
                Fut2,
                F,
            >(self.transform()->0) && a.stage() is Running {
                Stage::Running
            } else if self.transform() is None && a.stage() is Finalized {
                Stage::Finalized
            } else {
                Stage::Closing
            },
            Phase::DrainingFirst(_, _) => if self.transform() is Some && total::<
                Fut1::Output,
                Fut2,
                F,
            >(self.transform()->0) {
                Stage::Running
            } else {
                Stage::Closing
            },
            Phase::RunningSecond(b) => b.stage(),
            Phase::DrainingSecond(_, _) => Stage::Running,
            Phase::Done => Stage::Closing,
            Phase::Finalized => Stage::Finalized,
        }
    }

    /// What one drain may make of a sequencer. The transform and any buffered output are
    /// dropped and the transform is not invoked. The task that is held is drained once and
    /// stays where it is; with no task left, the sequencer becomes terminal.
    pub open spec fn may_drain_to(&self, next: Self) -> bool {
        &&& next.transform() is None
        &&& next.invocations() == self.invocations()
        &&& match self.phase() {
            Phase::RunningFirst(a) => next.phase() is RunningFirst && a.drains_to(
                next.phase()->RunningFirst_0,
            ),
            Phase::DrainingFirst(a, _) => next.phase() is RunningFirst && a.drains_to(
                next.phase()->RunningFirst_0,
            ),
            Phase::RunningSecond(b) => next.phase() is RunningSecond && b.drains_to(
                next.phase()->RunningSecond_0,
            ),
            Phase::DrainingSecond(b, _) => next.phase() is RunningSecond && b.drains_to(
                next.phase()->RunningSecond_0,
            ),
            Phase::Done => next.phase() is Finalized,
            Phase::Finalized => next.phase() is Finalized,
        }
    }

    /// What one step may make of a sequencer: one call on the task that is held, a step
    /// while it runs and a drain once its output is buffered, followed by the transition
    /// that the outcome of that call demands.
    pub open spec fn may_step_to(&self, next: Self, r: Poll<Fut2::Output>) -> bool {
        match self.phase() {
            Phase::RunningFirst(a) => {
                &&& r is Pending
                &&& next.transform() == self.transform()
                &&& next.invocations() == self.invocations()
                &&& {
                    ||| next.phase() is RunningFirst && a.steps_to(
                        next.phase()->RunningFirst_0,
                        Poll::Pending,
                    )
                    ||| next.phase() is DrainingFirst && a.steps_to(
                        next.phase()->DrainingFirst_0,
                        Poll::Ready(next.phase()->DrainingFirst_1),
                    )
                }
            },
            Phase::DrainingFirst(a, x) => {
                &&& r is Pending
                &&& {
                    ||| {
                        &&& next.phase() is DrainingFirst
                        &&& next.phase()->DrainingFirst_1 == x
                        &&& a.drains_to(next.phase()->DrainingFirst_0)
                        &&& !(next.phase()->DrainingFirst_0.stage() is Finalized)
                        &&& next.transform() == self.transform()
                        &&& next.invocations() == self.invocations()
                    }
                    ||| {
                        &&& next.phase() is RunningSecond
                        &&& exists|a2: Fut1| #[trigger] a.drains_to(a2) && a2.stage() is Finalized
                        &&& self.transform() is Some
                        &&& call_ensures(self.transform()->0, (x,), next.phase()->RunningSecond_0)
                        &&& next.transform() is None
                        &&& next.invocations() == self.invocations() + 1
                    }
                }
            },
            Phase::RunningSecond(b) => {
                &&& r is Pending
                &&& next.transform() == self.transform()
                &&& next.invocations() == self.invocations()
                &&& {
                    ||| next.phase() is RunningSecond && b.steps_to(
                        next.phase()->RunningSecond_0,
                        Poll::Pending,
                    )
                    ||| next.phase() is DrainingSecond && b.steps_to(
                        next.phase()->DrainingSecond_0,
                        Poll::Ready(next.phase()->DrainingSecond_1),
                    )
                }
            },
            Phase::DrainingSecond(b, y) => {
                &&& next.transform() == self.transform()
                &&& next.invocations() == self.invocations()
                &&& {
                    ||| {
                        &&& r is Pending
                        &&& next.phase() is DrainingSecond
                        &&& next.phase()->DrainingSecond_1 == y
                        &&& b.drains_to(next.phase()->DrainingSecond_0)
                        &&& !(next.phase()->DrainingSecond_0.stage() is Finalized)
                    }
                    ||| {
                        &&& r == Poll::Ready(y)
                        &&& next.phase() is Done
                        &&& exists|b2: Fut2| #[trigger] b.drains_to(b2) && b2.stage() is Finalized
                    }
                }
            },
            Phase::Done => false,
            Phase::Finalized => false,
        }
    }

    /// The trait's view of a sequencer is the one given here: its stage is its `lifecycle`,
    /// and its steps and drains are those of `may_step_to` and `may_drain_to`.
    pub proof fn lemma_protocol(&self, next: Self, r: Poll<Fut2::Output>)
        ensures
            self.stage() == self.lifecycle(),
            self.steps_to(next, r) == self.may_step_to(next, r),
            self.drains_to(next) == self.may_drain_to(next),
    {
    }

    /// The transform is invoked at most once. It has not been invoked while the sequencer
    /// holds its first task, and it has been invoked, and is gone, in every later state.
    pub proof fn lemma_transform_invoked_once(&self)
        requires
            self.wf(),
        ensures
            self.invocations() <= 1,
            self.invocations() == 0 <==> self.phase() is RunningFirst || self.phase()
                is DrainingFirst,
            self.invocations() == 1 ==> self.transform() is None,
    {
    }

    /// Steps and drains keep the count of invocations in agreement with the state.
    pub proof fn lemma_wf_is_kept(&self, next: Self, r: Poll<Fut2::Output>)
        requires
            self.wf(),
            self.may_step_to(next, r) || self.may_drain_to(next),
        ensures
            next.wf(),
    {
    }

    /// The transform is invoked by one step only: the one in which the drain of the first
    /// task completes, after that task has produced its output. That step hands the
    /// buffered output to the transform, and the task that comes back is the second task.
    pub proof fn lemma_transform_follows_first_drain(&self, next: Self, r: Poll<Fut2::Output>)
        requires
            self.may_step_to(next, r),
        ensures
            next.invocations() == self.invocations() || next.invocations() == self.invocations()
                + 1,
            next.invocations() == self.invocations() + 1 <==> self.phase() is DrainingFirst
                && next.phase() is RunningSecond,
            next.invocations() == self.invocations() + 1 ==> call_ensures(
                self.transform()->0,
                (self.phase()->DrainingFirst_1,),
                next.phase()->RunningSecond_0,
            ),
    {
    }

    /// A drain never invokes the transform. A sequencer that is drained while it holds its
    /// first task keeps that task, loses the transform, and can never be stepped again, so
    /// that no later call invokes the transform either.
    pub proof fn lemma_drain_never_invokes(&self, next: Self)
        requires
            self.may_drain_to(next),
        ensures
            next.invocations() == self.invocations(),
            next.transform() is None,
            self.phase() is RunningFirst || self.phase() is DrainingFirst ==> next.phase()
                is RunningFirst && !(next.stage() is Running),
    {
    }

    /// A buffered output is independent of the drain that follows it. While the first task
    /// drains, its output stays as it is until the transform receives it; while the second
    /// task drains, its output stays as it is until it is reported as the result.
    pub proof fn lemma_buffered_output_is_kept(&self, next: Self, r: Poll<Fut2::Output>)
        requires
            self.may_step_to(next, r),
        ensures
            self.phase() is DrainingFirst ==> {
                ||| next.phase() is DrainingFirst && next.phase()->DrainingFirst_1
                    == self.phase()->DrainingFirst_1
                ||| next.phase() is RunningSecond && call_ensures(
                    self.transform()->0,
                    (self.phase()->DrainingFirst_1,),
                    next.phase()->RunningSecond_0,
                )
            },
            self.phase() is DrainingSecond ==> {
                ||| r is Pending && next.phase() is DrainingSecond
                    && next.phase()->DrainingSecond_1 == self.phase()->DrainingSecond_1
                ||| r == Poll::Ready(self.phase()->DrainingSecond_1) && next.phase() is Done
            },
    {
    }

    /// A task leaves the sequencer only after its drain has completed: the step that lets
    /// go of the first or of the second task has seen that task finalized.
    pub proof fn lemma_tasks_leave_finalized(&self, next: Self, r: Poll<Fut2::Output>)
        requires
            self.may_step_to(next, r),
        ensures
            self.phase() is DrainingFirst && !(next.phase() is DrainingFirst) ==> exists|
                a2: Fut1,
            | #[trigger]
                self.phase()->DrainingFirst_0.drains_to(a2) && a2.stage() is Finalized,
            self.phase() is DrainingSecond && !(next.phase() is DrainingSecond) ==> exists|
                b2: Fut2,
            | #[trigger]
                self.phase()->DrainingSecond_0.drains_to(b2) && b2.stage() is Finalized,
    {
    }

    /// A result is reported once. The step that reports it leaves the sequencer in `Done`,
    /// where it can neither be stepped again nor counts as finalized: one drain is owed.
    pub proof fn lemma_result_ends_stepping(&self, next: Self, r: Poll<Fut2::Output>)
        requires
            self.may_step_to(next, r),
            r is Ready,
        ensures
            next.phase() is Done,
            next.stage() is Closing,
            forall|after: Self, again: Poll<Fut2::Output>| !next.may_step_to(after, again),
    {
    }

    /// The transition after a drain of the first task. Once the first task is finalized its
    /// storage is reclaimed, the transform is consumed on the buffered output, and the task
    /// that it returns becomes the second task; before that, nothing changes.
    pub fn first_drained(&mut self, outcome: Poll<()>) -> (r: Advance<Fut2::Output>)
        requires
            old(self).phase() is DrainingFirst,
            outcome is Ready ==> old(self).phase()->DrainingFirst_0.stage() is Finalized,
            outcome is Ready ==> old(self).transform() is Some && call_requires(
                old(self).transform()->0,
                (old(self).phase()->DrainingFirst_1,),
            ),
        ensures
            old(self).wf() ==> final(self).wf(),
            match outcome {
                Poll::Pending => r is Wait && *final(self) == *old(self),
                Poll::Ready(_) => {
                    &&& r is Again
                    &&& final(self).phase() is RunningSecond
                    &&& call_ensures(
                        old(self).transform()->0,
                        (old(self).phase()->DrainingFirst_1,),
                        final(self).phase()->RunningSecond_0,
                    )
                    &&& final(self).transform() is None
                    &&& final(self).invocations() == old(self).invocations() + 1
                },
            },
    {
        match outcome {
            Poll::Pending => Advance::Wait,
            Poll::Ready(_) => {
                let mut state = ThenInner::Done;
                std::mem::swap(&mut self.inner, &mut state);
                match state {
                    ThenInner::Fut1(fut1, Some(x), Some(f)) => {
                        reclaim(fut1);
                        self.inner = ThenInner::Fut2(f(x), None);
                        self.invoked = Ghost((self.invoked@ + 1) as nat);
                        Advance::Again
                    },
                    _ => unreached(),
                }
            },
        }
    }
}

impl<Fut1, Fut2, F> AsyncDrop for Then<Fut1, Fut2, F> where
    Fut1: AbortSafeFuture,
    Fut2: AbortSafeFuture,
    F: FnOnce(Fut1::Output) -> Fut2,
 {
    open spec fn stage(&self) -> Stage {
        self.lifecycle()
    }

    open spec fn drains_to(&self, next: Self) -> bool {
        self.may_drain_to(next)
    }

    /// Forwards the drain to the task that is held, after dropping the transform and any
    /// buffered output, neither of which is used again. The transform is not invoked. With
    /// no task left, `Done` becomes `Finalized`.
    fn poll_drop(&mut self, cx: &mut Context<'_>) -> (r: Poll<()>)
        ensures
            old(self).wf() ==> final(self).wf(),
            old(self).may_drain_to(*final(self)),
            final(self).stage() == final(self).lifecycle(),
    {
        match &mut self.inner {
            ThenInner::Fut1(fut1, output, f) => {
                let _ = f.take();
                let _ = output.take();
                fut1.poll_drop(cx)
            },
            ThenInner::Fut2(fut2, output) => {
                let _ = output.take();
                fut2.poll_drop(cx)
            },
            ThenInner::Done => {
                self.inner = ThenInner::Canceled;
                Poll::Ready(())
            },
            ThenInner::Canceled => Poll::Ready(()),
        }
    }
}

impl<Fut1, Fut2, F> AbortSafeFuture for Then<Fut1, Fut2, F> where
    Fut1: AbortSafeFuture,
    Fut2: AbortSafeFuture,
    F: FnOnce(Fut1::Output) -> Fut2,
 {
    type Output = Fut2::Output;

    open spec fn steps_to(&self, next: Self, r: Poll<Fut2::Output>) -> bool {
        self.may_step_to(next, r)
    }

    /// Makes one call on the task that is held, a step or a drain as the state demands, and
    /// applies the matching transition. Every transition is reported as `Pending` together
    /// with a request to be stepped again at once; only the end of the second task's drain
    /// yields `Ready`, with the output that the second task produced.
    fn poll(&mut self, cx: &mut Context<'_>) -> (r: Poll<Self::Output>)
        ensures
            old(self).wf() ==> final(self).wf(),
            old(self).may_step_to(*final(self), r),
            final(self).stage() == final(self).lifecycle(),
    {
        let advance = match &mut self.inner {
            ThenInner::Fut1(fut1, None, _) => {
                let outcome = fut1.poll(cx);
                self.first_stepped(outcome)
            },
            ThenInner::Fut1(fut1, Some(_), _) => {
                let outcome = fut1.poll_drop(cx);
                proof {
                    let drained = *fut1;
                    assert(old(self).phase()->DrainingFirst_0.drains_to(drained));
                }
                self.first_drained(outcome)
            },
            ThenInner::Fut2(fut2, None) => {
                let outcome = fut2.poll(cx);
                self.second_stepped(outcome)
            },
            ThenInner::Fut2(fut2, Some(_)) => {
                let outcome = fut2.poll_drop(cx);
                proof {
                    let drained = *fut2;
                    assert(old(self).phase()->DrainingSecond_0.drains_to(drained));
                }
                self.second_drained(outcome)
            },
            ThenInner::Done => unreached(),
            ThenInner::Canceled => unreached(),
        };
        report(advance, cx)
    }
}

} // verus!
