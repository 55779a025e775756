use abort_safe_future::combinator::Compat;
use abort_safe_future::combinator::Then;
use abort_safe_future::future::AbortSafeFuture;
use abort_safe_future::future::AbortSafeFutureExt;
use abort_safe_future::future::Advance;
use abort_safe_future::future::AsyncDrop;
use abort_safe_future::future::Stage;
use abort_safe_future::ready;
use std::cell::Cell;
use std::cell::RefCell;
use std::rc::Rc;
use std::sync::atomic::AtomicUsize;
use std::sync::atomic::Ordering;
use std::sync::Arc;
use std::task::Context;
use std::task::Poll;
use std::task::Wake;
use std::task::Waker;

type Log = Rc<RefCell<Vec<String>>>;

fn new_log() -> Log {
    Rc::new(RefCell::new(Vec::new()))
}

fn entries(log: &Log) -> Vec<String> {
    log.borrow().clone()
}

fn lines(items: &[&str]) -> Vec<String> {
    items.iter().map(|s| s.to_string()).collect()
}

struct Count(AtomicUsize);

impl Wake for Count {
    fn wake(self: Arc<Self>) {
        self.0.fetch_add(1, Ordering::SeqCst);
    }
}

fn counter() -> (Arc<Count>, Waker) {
    let count = Arc::new(Count(AtomicUsize::new(0)));
    let waker = Waker::from(count.clone());
    (count, waker)
}

fn wakes(count: &Arc<Count>) -> usize {
    count.0.load(Ordering::SeqCst)
}

/// A task that reports `Pending` for `steps_left` steps and then yields `value`, and whose
/// drain reports `Pending` for `drains_left` calls before it completes. It records every
/// call made on it and never signals the waker.
struct Staged {
    name: &'static str,
    steps_left: u32,
    value: i32,
    drains_left: u32,
    stage: Stage,
    log: Log,
}

impl Staged {
    fn new(name: &'static str, steps: u32, value: i32, drains: u32, log: &Log) -> Staged {
        Staged {
            name,
            steps_left: steps,
            value,
            drains_left: drains,
            stage: Stage::Running,
            log: log.clone(),
        }
    }
}

impl AsyncDrop for Staged {
    fn stage(&self) -> Stage {
        self.stage
    }

    fn drains_to(&self, next: Self) -> bool {
        next.stage != Stage::Running
    }

    fn poll_drop(&mut self, _cx: &mut Context<'_>) -> Poll<()> {
        if self.stage == Stage::Finalized {
            return Poll::Ready(());
        }
        self.log.borrow_mut().push(format!("drain {}", self.name));
        if self.drains_left > 0 {
            self.drains_left -= 1;
            self.stage = Stage::Closing;
            Poll::Pending
        } else {
            self.stage = Stage::Finalized;
            self.log.borrow_mut().push(format!("release {}", self.name));
            Poll::Ready(())
        }
    }
}

impl AbortSafeFuture for Staged {
    type Output = i32;

    fn steps_to(&self, next: Self, r: Poll<i32>) -> bool {
        r.is_pending() == (next.stage == Stage::Running)
    }

    fn poll(&mut self, _cx: &mut Context<'_>) -> Poll<i32> {
        assert!(self.stage == Stage::Running, "{} was stepped while not running", self.name);
        self.log.borrow_mut().push(format!("step {}", self.name));
        if self.steps_left > 0 {
            self.steps_left -= 1;
            Poll::Pending
        } else {
            self.stage = Stage::Closing;
            Poll::Ready(self.value)
        }
    }
}

#[test]
fn every_transition_asks_to_be_stepped_again() {
    let (count, waker) = counter();
    let mut cx = Context::from_waker(&waker);
    let log = new_log();
    let second_log = log.clone();
    let mut task = Then::new(Staged::new("a", 0, 1, 0, &log), move |x: i32| {
        second_log.borrow_mut().push(format!("transform {}", x));
        Staged::new("b", 0, x + 1, 0, &second_log)
    });

    assert_eq!(task.poll(&mut cx), Poll::Pending);
    assert_eq!(wakes(&count), 1);
    assert_eq!(entries(&log), lines(&["step a"]));

    assert_eq!(task.poll(&mut cx), Poll::Pending);
    assert_eq!(wakes(&count), 2);
    assert_eq!(entries(&log), lines(&["step a", "drain a", "release a", "transform 1"]));

    assert_eq!(task.poll(&mut cx), Poll::Pending);
    assert_eq!(wakes(&count), 3);

    assert_eq!(task.poll(&mut cx), Poll::Ready(2));
    assert_eq!(wakes(&count), 3);
    assert_eq!(
        entries(&log),
        lines(&[
            "step a",
            "drain a",
            "release a",
            "transform 1",
            "step b",
            "drain b",
            "release b"
        ])
    );

    assert_eq!(task.poll_drop(&mut cx), Poll::Ready(()));
    assert_eq!(task.poll_drop(&mut cx), Poll::Ready(()));
    assert_eq!(entries(&log).len(), 7);
    assert_eq!(wakes(&count), 3);
}

#[test]
fn a_waiting_task_is_passed_on_without_a_request() {
    let (count, waker) = counter();
    let mut cx = Context::from_waker(&waker);
    let log = new_log();
    let second_log = log.clone();
    let mut task = Then::new(Staged::new("a", 2, 1, 1, &log), move |x: i32| {
        Staged::new("b", 1, x * 10, 2, &second_log)
    });

    assert_eq!(task.poll(&mut cx), Poll::Pending);
    assert_eq!(task.poll(&mut cx), Poll::Pending);
    assert_eq!(wakes(&count), 0);
    assert_eq!(task.poll(&mut cx), Poll::Pending);
    assert_eq!(wakes(&count), 1);
    assert_eq!(task.poll(&mut cx), Poll::Pending);
    assert_eq!(wakes(&count), 1);
    assert_eq!(task.poll(&mut cx), Poll::Pending);
    assert_eq!(wakes(&count), 2);
    assert_eq!(task.poll(&mut cx), Poll::Pending);
    assert_eq!(wakes(&count), 2);
    assert_eq!(task.poll(&mut cx), Poll::Pending);
    assert_eq!(wakes(&count), 3);
    assert_eq!(task.poll(&mut cx), Poll::Pending);
    assert_eq!(task.poll(&mut cx), Poll::Pending);
    assert_eq!(wakes(&count), 3);
    assert_eq!(task.poll(&mut cx), Poll::Ready(10));
    assert_eq!(wakes(&count), 3);
    assert_eq!(
        entries(&log),
        lines(&[
            "step a",
            "step a",
            "step a",
            "drain a",
            "drain a",
            "release a",
            "step b",
            "step b",
            "drain b",
            "drain b",
            "drain b",
            "release b"
        ])
    );
}

#[test]
fn the_buffered_output_survives_a_slow_drain() {
    let mut cx = Context::from_waker(Waker::noop());
    let log = new_log();
    let seen = Rc::new(Cell::new(None));
    let noted = seen.clone();
    let second_log = log.clone();
    let mut task = Then::new(Staged::new("a", 0, 5, 3, &log), move |x: i32| {
        noted.set(Some(x));
        Staged::new("b", 0, x + 100, 3, &second_log)
    });
    let mut result = Poll::Pending;
    let mut polls = 0;
    while result.is_pending() {
        result = task.poll(&mut cx);
        polls += 1;
        assert!(polls <= 10);
    }
    assert_eq!(seen.get(), Some(5));
    assert_eq!(result, Poll::Ready(105));
    assert_eq!(polls, 10);
}

#[test]
fn transform_is_invoked_exactly_once_on_the_way_to_a_result() {
    let mut cx = Context::from_waker(Waker::noop());
    let log = new_log();
    let calls = Rc::new(Cell::new(0u32));
    let seen = calls.clone();
    let second_log = log.clone();
    let mut task = Then::new(Staged::new("a", 1, 1, 1, &log), move |x: i32| {
        seen.set(seen.get() + 1);
        Staged::new("b", 1, x + 1, 1, &second_log)
    });
    assert_eq!(task.poll(&mut cx), Poll::Pending);
    assert_eq!(calls.get(), 0);
    assert_eq!(task.poll(&mut cx), Poll::Pending);
    assert_eq!(calls.get(), 0);
    assert_eq!(task.poll(&mut cx), Poll::Pending);
    assert_eq!(calls.get(), 0);
    assert_eq!(task.poll(&mut cx), Poll::Pending);
    assert_eq!(calls.get(), 1);
    assert_eq!(task.poll(&mut cx), Poll::Pending);
    assert_eq!(task.poll(&mut cx), Poll::Pending);
    assert_eq!(task.poll(&mut cx), Poll::Pending);
    assert_eq!(task.poll(&mut cx), Poll::Ready(2));
    assert_eq!(calls.get(), 1);
    assert_eq!(task.poll_drop(&mut cx), Poll::Ready(()));
    assert_eq!(calls.get(), 1);
}

#[test]
fn drained_while_the_first_task_runs() {
    let mut cx = Context::from_waker(Waker::noop());
    let log = new_log();
    let calls = Rc::new(Cell::new(0u32));
    let seen = calls.clone();
    let second_log = log.clone();
    let mut task = Then::new(Staged::new("a", 5, 1, 2, &log), move |x: i32| {
        seen.set(seen.get() + 1);
        Staged::new("b", 0, x, 0, &second_log)
    });
    assert_eq!(task.poll(&mut cx), Poll::Pending);
    assert_eq!(task.poll_drop(&mut cx), Poll::Pending);
    assert_eq!(task.poll_drop(&mut cx), Poll::Pending);
    assert_eq!(task.poll_drop(&mut cx), Poll::Ready(()));
    assert_eq!(task.poll_drop(&mut cx), Poll::Ready(()));
    assert_eq!(calls.get(), 0);
    assert_eq!(
        entries(&log),
        lines(&["step a", "drain a", "drain a", "drain a", "release a"])
    );
}

#[test]
fn drained_while_the_first_task_drains() {
    let mut cx = Context::from_waker(Waker::noop());
    let log = new_log();
    let calls = Rc::new(Cell::new(0u32));
    let seen = calls.clone();
    let second_log = log.clone();
    let mut task = Then::new(Staged::new("a", 0, 1, 2, &log), move |x: i32| {
        seen.set(seen.get() + 1);
        Staged::new("b", 0, x, 0, &second_log)
    });
    assert_eq!(task.poll(&mut cx), Poll::Pending);
    assert_eq!(task.poll(&mut cx), Poll::Pending);
    assert_eq!(entries(&log), lines(&["step a", "drain a"]));
    assert_eq!(task.poll_drop(&mut cx), Poll::Pending);
    assert_eq!(task.poll_drop(&mut cx), Poll::Ready(()));
    assert_eq!(calls.get(), 0);
    assert_eq!(
        entries(&log),
        lines(&["step a", "drain a", "drain a", "drain a", "release a"])
    );
}

#[test]
fn drained_while_the_second_task_runs() {
    let mut cx = Context::from_waker(Waker::noop());
    let log = new_log();
    let calls = Rc::new(Cell::new(0u32));
    let seen = calls.clone();
    let second_log = log.clone();
    let mut task = Then::new(Staged::new("a", 0, 1, 0, &log), move |x: i32| {
        seen.set(seen.get() + 1);
        Staged::new("b", 5, x, 1, &second_log)
    });
    assert_eq!(task.poll(&mut cx), Poll::Pending);
    assert_eq!(task.poll(&mut cx), Poll::Pending);
    assert_eq!(task.poll(&mut cx), Poll::Pending);
    assert_eq!(calls.get(), 1);
    assert_eq!(task.poll_drop(&mut cx), Poll::Pending);
    assert_eq!(task.poll_drop(&mut cx), Poll::Ready(()));
    assert_eq!(task.poll_drop(&mut cx), Poll::Ready(()));
    assert_eq!(calls.get(), 1);
    assert_eq!(
        entries(&log),
        lines(&["step a", "drain a", "release a", "step b", "drain b", "drain b", "release b"])
    );
}

#[test]
fn drained_while_the_second_task_drains() {
    let mut cx = Context::from_waker(Waker::noop());
    let log = new_log();
    let second_log = log.clone();
    let mut task = Then::new(Staged::new("a", 0, 1, 0, &log), move |x: i32| {
        Staged::new("b", 0, x, 2, &second_log)
    });
    assert_eq!(task.poll(&mut cx), Poll::Pending);
    assert_eq!(task.poll(&mut cx), Poll::Pending);
    assert_eq!(task.poll(&mut cx), Poll::Pending);
    assert_eq!(task.poll(&mut cx), Poll::Pending);
    assert_eq!(task.poll_drop(&mut cx), Poll::Pending);
    assert_eq!(task.poll_drop(&mut cx), Poll::Ready(()));
    assert_eq!(
        entries(&log),
        lines(&[
            "step a",
            "drain a",
            "release a",
            "step b",
            "drain b",
            "drain b",
            "drain b",
            "release b"
        ])
    );
}

#[test]
fn drain_after_the_result_finalizes_in_one_call() {
    let mut cx = Context::from_waker(Waker::noop());
    let mut task = Then::new(ready(1), |x: i32| ready(x + 1));
    assert_eq!(task.poll(&mut cx), Poll::Pending);
    assert_eq!(task.poll(&mut cx), Poll::Pending);
    assert_eq!(task.poll(&mut cx), Poll::Pending);
    assert_eq!(task.poll(&mut cx), Poll::Ready(2));
    assert_eq!(task.poll_drop(&mut cx), Poll::Ready(()));
    assert_eq!(task.poll_drop(&mut cx), Poll::Ready(()));
}

#[test]
fn the_method_builds_the_same_sequencer() {
    let mut cx = Context::from_waker(Waker::noop());
    let mut task = ready(20).then(|x: i32| ready(x * 2));
    assert_eq!(task.poll(&mut cx), Poll::Pending);
    assert_eq!(task.poll(&mut cx), Poll::Pending);
    assert_eq!(task.poll(&mut cx), Poll::Pending);
    assert_eq!(task.poll(&mut cx), Poll::Ready(40));
}

#[test]
fn sequencers_nest() {
    let mut cx = Context::from_waker(Waker::noop());
    let log = new_log();
    let (l1, l2) = (log.clone(), log.clone());
    let mut task = Staged::new("a", 0, 1, 1, &log)
        .then(move |x: i32| Staged::new("b", 0, x + 1, 1, &l1))
        .then(move |x: i32| Staged::new("c", 0, x + 1, 1, &l2));
    let mut result = Poll::Pending;
    let mut polls = 0;
    while result.is_pending() {
        result = task.poll(&mut cx);
        polls += 1;
        assert!(polls <= 100);
    }
    assert_eq!(result, Poll::Ready(3));
    assert_eq!(
        entries(&log),
        lines(&[
            "step a", "drain a", "drain a", "release a", "step b", "drain b", "drain b",
            "release b", "step c", "drain c", "drain c", "release c"
        ])
    );
    assert_eq!(task.poll_drop(&mut cx), Poll::Ready(()));
}

#[test]
fn a_nested_sequencer_is_drained_through() {
    let mut cx = Context::from_waker(Waker::noop());
    let log = new_log();
    let calls = Rc::new(Cell::new(0u32));
    let (c1, c2) = (calls.clone(), calls.clone());
    let (l1, l2) = (log.clone(), log.clone());
    let mut task = Staged::new("a", 3, 1, 1, &log)
        .then(move |x: i32| {
            c1.set(c1.get() + 1);
            Staged::new("b", 0, x + 1, 1, &l1)
        })
        .then(move |x: i32| {
            c2.set(c2.get() + 1);
            Staged::new("c", 0, x + 1, 1, &l2)
        });
    assert_eq!(task.poll(&mut cx), Poll::Pending);
    assert_eq!(task.poll_drop(&mut cx), Poll::Pending);
    assert_eq!(task.poll_drop(&mut cx), Poll::Ready(()));
    assert_eq!(task.poll_drop(&mut cx), Poll::Ready(()));
    assert_eq!(calls.get(), 0);
    assert_eq!(entries(&log), lines(&["step a", "drain a", "drain a", "release a"]));
}

#[test]
fn transitions_of_the_first_task() {
    let mut cx = Context::from_waker(Waker::noop());
    let calls = Rc::new(Cell::new(0u32));
    let seen = calls.clone();
    let mut first = ready(0);
    assert_eq!(first.poll_drop(&mut cx), Poll::Ready(()));
    let mut task = Then::new(first, move |x: i32| {
        seen.set(seen.get() + 1);
        ready(x + 1)
    });
    assert!(matches!(task.first_stepped(Poll::Pending), Advance::Wait));
    assert!(matches!(task.first_stepped(Poll::Ready(5)), Advance::Again));
    assert!(matches!(task.first_drained(Poll::Pending), Advance::Wait));
    assert_eq!(calls.get(), 0);
    assert!(matches!(task.first_drained(Poll::Ready(())), Advance::Again));
    assert_eq!(calls.get(), 1);
    assert_eq!(task.poll(&mut cx), Poll::Pending);
    assert_eq!(task.poll(&mut cx), Poll::Ready(6));
}

#[test]
fn transitions_of_the_second_task() {
    let mut cx = Context::from_waker(Waker::noop());
    let mut task = Then::new(ready(1), |x: i32| {
        let mut second = Compat::new(std::future::ready(x));
        let mut cx = Context::from_waker(Waker::noop());
        assert_eq!(second.poll_drop(&mut cx), Poll::Ready(()));
        second
    });
    assert_eq!(task.poll(&mut cx), Poll::Pending);
    assert_eq!(task.poll(&mut cx), Poll::Pending);
    assert!(matches!(task.second_stepped(Poll::Pending), Advance::Wait));
    assert!(matches!(task.second_stepped(Poll::Ready(8)), Advance::Again));
    assert!(matches!(task.second_drained(Poll::Pending), Advance::Wait));
    assert!(matches!(task.second_drained(Poll::Ready(())), Advance::Finished(8)));
    assert_eq!(task.poll_drop(&mut cx), Poll::Ready(()));
}
