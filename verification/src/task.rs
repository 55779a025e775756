//! The pieces of `std` and of the `futures` crate that the protocol is built on, as far as
//! proofs have to know them. Nothing in this file is proved: each item says what is taken
//! on trust, and none of them promises anything about a value.
use futures::future::Pending;
use futures::future::Ready;
use std::future::Future;
use std::pin::Pin;
use std::task::Context;
use std::task::Poll;
use std::task::Waker;
use vstd::prelude::*;

verus! {

/// `std::task::Context`: carried through every step and drain, never inspected.
#[verifier::external_type_specification]
#[verifier::external_body]
pub struct ExContext<'a>(Context<'a>);

/// `std::task::Waker`: the handle through which a re-step is requested.
#[verifier::external_type_specification]
#[verifier::external_body]
pub struct ExWaker(Waker);

/// `std::task::Poll`. Its two variants, `Ready` and `Pending`, are read from the definition
/// in `std` itself, so that proofs can tell them apart and take the value out of `Ready`.
#[verifier::external_type_specification]
pub struct ExPoll<T>(Poll<T>);

/// `std::pin::Pin`: an opaque pointer whose target does not move.
#[verifier::external_type_specification]
#[verifier::external_body]
#[verifier::reject_recursive_types(P)]
pub struct ExPin<P>(Pin<P>);

/// `futures::future::Ready`: a future that completes at its first poll.
#[verifier::external_type_specification]
#[verifier::external_body]
#[verifier::reject_recursive_types(T)]
pub struct ExReady<T>(Ready<T>);

/// `futures::future::Pending`: a future that never completes.
#[verifier::external_type_specification]
#[verifier::external_body]
#[verifier::reject_recursive_types(T)]
pub struct ExPending<T>(Pending<T>);

/// `futures::future::ready` makes a future that is immediately ready with `t`. The future is
/// opaque, so nothing is claimed of the result.
#[verifier::external_body]
pub(crate) fn ready_future<T>(t: T) -> (r: Ready<T>) {
    futures::future::ready(t)
}

/// `futures::future::pending` makes a future that never resolves. The future is opaque, so
/// nothing is claimed of the result.
#[verifier::external_body]
pub(crate) fn pending_future<T>() -> (r: Pending<T>) {
    futures::future::pending()
}

/// `Context::waker` hands out the waker of the current task. Nothing is claimed of it.
pub assume_specification<'a, 'b>[ Context::<'a>::waker ](cx: &'b Context<'a>) -> (w: &'a Waker);

/// `Waker::wake_by_ref` signals the task's driver without consuming the waker. It returns
/// nothing, and nothing is claimed of its effect on the driver.
pub assume_specification[ Waker::wake_by_ref ](w: &Waker);

/// `Box::pin` moves a value to the heap, where it keeps its address for as long as it lives.
/// The pinned box is opaque, so nothing is claimed of the result.
#[verifier::external_body]
pub(crate) fn pin_box<Fut>(fut: Fut) -> (r: Pin<Box<Fut>>) {
    Box::pin(fut)
}

/// `Future::poll` on a pinned, boxed future; `Pin::as_mut` only reborrows the box for the
/// call. The outcome is the future's own business: nothing is claimed of it. A future that
/// has completed must not be polled again; the one caller discards the future as soon as it
/// reports `Ready`.
#[verifier::external_body]
pub(crate) fn poll_pinned<Fut: Future>(fut: &mut Pin<Box<Fut>>, cx: &mut Context<'_>) -> (r: Poll<
    Fut::Output,
>) {
    fut.as_mut().poll(cx)
}

} // verus!
