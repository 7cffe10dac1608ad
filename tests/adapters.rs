use std::cell::Cell;
use std::rc::Rc;
use std::sync::mpsc;
use std::task::{Context, Waker};

use poll_chain::{
    and_then_step, iter, map_err_outcome, map_ok_outcome, or_else_step, ready, Future, FutureExt,
    Poll, Ready, Stage, StreamExt,
};

/// A future that is pending for a given number of polls, then resolves.
struct After<T> {
    polls_left: u32,
    value: Option<T>,
}

impl<T> Future for After<T> {
    type Output = T;

    fn poll(&mut self, _cx: &mut Context<'_>) -> Poll<T> {
        if self.polls_left > 0 {
            self.polls_left -= 1;
            Poll::Pending
        } else {
            Poll::Ready(self.value.take().unwrap())
        }
    }
}

fn after<T>(polls_left: u32, v: T) -> After<T> {
    After { polls_left, value: Some(v) }
}

fn poll_once<F: Future>(f: &mut F) -> Poll<F::Output> {
    let mut cx = Context::from_waker(Waker::noop());
    f.poll(&mut cx)
}

#[test]
fn poll_tells_ready_from_pending() {
    assert!(Poll::Ready(3).is_ready());
    assert!(!Poll::Ready(3).is_pending());
    assert!(Poll::<i32>::Pending.is_pending());
    assert!(!Poll::<i32>::Pending.is_ready());
}

#[test]
fn ready_resolves_on_first_poll() {
    let mut f = ready(5);
    assert_eq!(Poll::Ready(5), poll_once(&mut f));
}

#[test]
fn map_applies_closure() {
    let mut f = ready(3).map(|x: i32| x * 2);
    assert_eq!(Poll::Ready(6), poll_once(&mut f));
}

#[test]
fn map_waits_for_inner_future() {
    let mut f = after(2, 10).map(|x: i32| x + 1);
    assert_eq!(Poll::Pending, poll_once(&mut f));
    assert_eq!(Poll::Pending, poll_once(&mut f));
    assert_eq!(Poll::Ready(11), poll_once(&mut f));
}

#[test]
fn closure_runs_once_across_pending_polls() {
    let calls = Rc::new(Cell::new(0u32));
    let seen = calls.clone();
    let mut f = after(3, 1).then(move |x: i32| {
        seen.set(seen.get() + 1);
        after(2, x + 1)
    });
    let mut polls = 0;
    let out = loop {
        polls += 1;
        if let Poll::Ready(v) = poll_once(&mut f) {
            break v;
        }
    };
    assert_eq!(2, out);
    assert_eq!(6, polls);
    assert_eq!(1, calls.get());
}

#[test]
fn map_ok_outcome_values() {
    assert_eq!(Ok::<i32, i32>(8), map_ok_outcome(Ok(4), |x: i32| x * 2));
    assert_eq!(Err::<i32, i32>(4), map_ok_outcome(Err(4), |x: i32| x * 2));
}

#[test]
fn map_err_outcome_values() {
    assert_eq!(Ok::<i32, i32>(4), map_err_outcome(Ok(4), |x: i32| x * 2));
    assert_eq!(Err::<i32, i32>(8), map_err_outcome(Err(4), |x: i32| x * 2));
}

#[test]
fn map_ok_and_map_err_adapters() {
    let mut f = ready::<Result<i32, i32>>(Ok(2)).map_ok(|x: i32| x + 1);
    assert_eq!(Poll::Ready(Ok(3)), poll_once(&mut f));
    let mut g = ready::<Result<i32, i32>>(Err(2)).map_err(|x: i32| x + 1);
    assert_eq!(Poll::Ready(Err(3)), poll_once(&mut g));
}

#[test]
fn and_then_step_decides() {
    match and_then_step::<i32, i32, Ready<Result<i32, i32>>, _, i32>(Ok(2), |x: i32| ready(Ok(x + 1))) {
        Stage::Continue(mut g) => assert_eq!(Poll::Ready(Ok(3)), poll_once(&mut g)),
        Stage::Finish(_) => panic!("expected a continuation"),
    }
    match and_then_step::<i32, i32, Ready<Result<i32, i32>>, _, i32>(Err(7), |_: i32| -> Ready<Result<i32, i32>> {
        panic!("should not run")
    }) {
        Stage::Continue(_) => panic!("expected the failure"),
        Stage::Finish(r) => assert_eq!(Err(7), r),
    }
}

#[test]
fn or_else_step_decides() {
    match or_else_step::<i32, i32, Ready<Result<i32, i32>>, _, i32>(Err(2), |x: i32| ready(Ok(x * 10))) {
        Stage::Continue(mut g) => assert_eq!(Poll::Ready(Ok(20)), poll_once(&mut g)),
        Stage::Finish(_) => panic!("expected a continuation"),
    }
    match or_else_step::<i32, i32, Ready<Result<i32, i32>>, _, i32>(Ok(5), |_: i32| -> Ready<Result<i32, i32>> {
        panic!("should not run")
    }) {
        Stage::Continue(_) => panic!("expected the success"),
        Stage::Finish(r) => assert_eq!(Ok(5), r),
    }
}

#[test]
fn and_then_passes_failure_and_releases_closure() {
    let (tx, rx) = mpsc::channel::<()>();
    let mut f = after::<Result<i32, i32>>(1, Err(9)).and_then(move |_: i32| -> Ready<Result<i32, i32>> {
        let _tx = tx;
        panic!("should not run")
    });
    assert_eq!(Poll::Pending, poll_once(&mut f));
    assert_eq!(Err(mpsc::TryRecvError::Empty), rx.try_recv());
    assert_eq!(Poll::Ready(Err(9)), poll_once(&mut f));
    assert_eq!(Err(mpsc::TryRecvError::Disconnected), rx.try_recv());
}

#[test]
fn or_else_passes_success_and_releases_closure() {
    let (tx, rx) = mpsc::channel::<()>();
    let mut f = after::<Result<i32, i32>>(1, Ok(4)).or_else(move |_: i32| -> Ready<Result<i32, i32>> {
        let _tx = tx;
        panic!("should not run")
    });
    assert_eq!(Poll::Pending, poll_once(&mut f));
    assert_eq!(Poll::Ready(Ok(4)), poll_once(&mut f));
    assert_eq!(Err(mpsc::TryRecvError::Disconnected), rx.try_recv());
}

#[test]
fn and_then_runs_continuation() {
    let mut f = ready::<Result<i32, i32>>(Ok(1)).and_then(|x: i32| after::<Result<i32, i32>>(1, Ok(x + 41)));
    assert_eq!(Poll::Pending, poll_once(&mut f));
    assert_eq!(Poll::Ready(Ok(42)), poll_once(&mut f));
}

#[test]
fn dropping_unfinished_adapter_releases_closure() {
    let (tx, rx) = mpsc::channel::<()>();
    let mut f = after(5, 1).map(move |x: i32| {
        let _tx = tx;
        x
    });
    assert_eq!(Poll::Pending, poll_once(&mut f));
    assert_eq!(Err(mpsc::TryRecvError::Empty), rx.try_recv());
    drop(f);
    assert_eq!(Err(mpsc::TryRecvError::Disconnected), rx.try_recv());
}

#[test]
fn next_yields_items_in_order() {
    let mut s = iter(vec!['a', 'b']);
    assert_eq!(Poll::Ready(Some('a')), poll_once(&mut s.next()));
    assert_eq!(Poll::Ready(Some('b')), poll_once(&mut s.next()));
    assert_eq!(Poll::Ready(None), poll_once(&mut s.next()));
}

#[test]
fn next_on_empty_stream() {
    let mut s = iter(Vec::<u8>::new());
    assert_eq!(Poll::Ready(None), poll_once(&mut s.next()));
    assert_eq!(Poll::Ready(None), poll_once(&mut s.next()));
}
