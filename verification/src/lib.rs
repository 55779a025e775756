//! A cooperative task protocol with explicit, ordered finalization.
//!
//! An ordinary future releases what it holds when its owner lets go of it. A task of this
//! crate is never let go of silently: its holder steps it with `poll`, and, whether the task
//! produced its result or is being abandoned, drains it with `poll_drop` until the task
//! reports that it is finalized. Only then may its storage be reclaimed.
pub mod combinator;
pub mod executor;
pub mod future;
pub mod task;

pub use combinator::pending;
pub use combinator::ready;
pub use future::AbortSafeFuture;
pub use future::AbortSafeFutureExt;
pub use future::AsyncDrop;
