//! The protocol itself: what every drainable object and every task promises its holder.
use crate::combinator::Phase;
use crate::combinator::Then;
use std::task::Context;
use std::task::Poll;
use vstd::prelude::*;

verus! {

/// Where a drainable object stands in its life.
#[derive(Clone, Copy, Debug, PartialEq, Eq, Structural)]
pub enum Stage {
    /// Not yet started, or in progress: the object may be stepped.
    Running,
    /// It has produced its result or has been asked to drain, and still holds resources.
    Closing,
    /// Terminal: everything is released and the storage may be reclaimed.
    Finalized,
}

/// What one call achieved, as seen by whoever drives the object.
#[derive(Debug)]
pub enum Advance<T> {
    /// Nothing further can be done before a wake signal arrives.
    Wait,
    /// A transition took place: call again at once, without waiting for a signal.
    Again,
    /// The work is complete, with this result.
    Finished(T),
}

/// An object that must be told to release what it holds, and that may need several calls
/// before it is done.
///
/// `stage` and `drains_to` describe the object to proofs and are never called at run time.
pub trait AsyncDrop: Sized {
    /// The stage that the object is in.
    spec fn stage(&self) -> Stage;

    /// What one drain may make of the object: `next` is a state that a single call of
    /// `poll_drop` may leave behind.
    spec fn drains_to(&self, next: Self) -> bool;

    /// Drains the object. `Ready` is reported exactly when the terminal stage is reached.
    /// From the first call on the object can no longer be stepped. Draining a finalized
    /// object reports `Ready` again and changes nothing.
    fn poll_drop(&mut self, cx: &mut Context<'_>) -> (r: Poll<()>)
        ensures
            old(self).drains_to(*final(self)),
            !(final(self).stage() is Running),
            r is Ready <==> final(self).stage() is Finalized,
            old(self).stage() is Finalized ==> *final(self) == *old(self),
    ;
}

/// A unit of cooperatively stepped computation with mandatory explicit finalization.
///
/// `steps_to` describes the task to proofs and is never called at run time.
pub trait AbortSafeFuture: AsyncDrop {
    /// What the task produces.
    type Output;

    /// What one step may make of the task: `next` is a state that a single call of `poll`
    /// may leave behind while it reports `r`.
    spec fn steps_to(&self, next: Self, r: Poll<Self::Output>) -> bool;

    /// Advances the task. Only a running task may be stepped. It keeps running exactly as
    /// long as it reports `Pending`. Once it has reported `Ready` it must not be stepped
    /// again, and it still has to be drained before its storage is reclaimed.
    fn poll(&mut self, cx: &mut Context<'_>) -> (r: Poll<Self::Output>)
        requires
            old(self).stage() is Running,
        ensures
            old(self).steps_to(*final(self), r),
            r is Pending <==> final(self).stage() is Running,
    ;
}

/// Sequencing for every task.
pub trait AbortSafeFutureExt: AbortSafeFuture {
    /// Runs `self`, hands its output to `f`, and runs the task that `f` returns.
    fn then<Fut, F>(self, f: F) -> (r: Then<Self, Fut, F>) where
        Fut: AbortSafeFuture,
        F: FnOnce(Self::Output) -> Fut,

        ensures
            r.phase() == Phase::<Self, Self::Output, Fut, Fut::Output>::RunningFirst(self),
            r.transform() == Some(f),
            r.invocations() == 0,
            r.wf(),
            r.stage() == r.lifecycle(),
    {
        Then::new(self, f)
    }
}

impl<Fut: AbortSafeFuture> AbortSafeFutureExt for Fut {
}

/// Gives up the storage of a drainable object. This is the only way in which this crate lets
/// go of a task, and it is open to finalized objects alone.
pub fn reclaim<T: AsyncDrop>(task: T)
    requires
        task.stage() is Finalized,
{
}

/// Turns the outcome of a transition into what a task reports to its holder. For `Again` the
/// holder is signalled through the waker, so that it steps the task again without waiting.
pub fn report<T>(advance: Advance<T>, cx: &mut Context<'_>) -> (r: Poll<T>)
    ensures
        match advance {
            Advance::Finished(v) => r == Poll::Ready(v),
            _ => r is Pending,
        },
{
    match advance {
        Advance::Wait => Poll::Pending,
        Advance::Again => {
            cx.waker().wake_by_ref();
            Poll::Pending
        },
        Advance::Finished(v) => Poll::Ready(v),
    }
}

} // verus!
