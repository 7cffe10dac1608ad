use std::sync::mpsc;
use std::task::{Context, Waker};

use poll_chain::{ready, AndThen, Future, MapErr, MapOk, Mapped, OrElse, Poll, Then};

/// A future that resolves with the first value sent on a channel.
struct Recv<T> {
    rx: mpsc::Receiver<T>,
}

impl<T> Future for Recv<T> {
    type Output = T;

    fn poll(&mut self, _cx: &mut Context<'_>) -> Poll<T> {
        match self.rx.try_recv() {
            Ok(v) => Poll::Ready(v),
            Err(mpsc::TryRecvError::Empty) => Poll::Pending,
            Err(mpsc::TryRecvError::Disconnected) => panic!(),
        }
    }
}

/// A future that carries a piece of data for as long as it lives.
struct FutureData<F, T> {
    _data: T,
    future: F,
}

impl<F: Future, T> Future for FutureData<F, T> {
    type Output = F::Output;

    fn poll(&mut self, cx: &mut Context<'_>) -> Poll<F::Output> {
        self.future.poll(cx)
    }
}

fn poll_once<F: Future>(f: &mut F) -> Poll<F::Output> {
    let mut cx = Context::from_waker(Waker::noop());
    f.poll(&mut cx)
}

fn run<F: Future>(mut f: F) -> F::Output {
    loop {
        if let Poll::Ready(v) = poll_once(&mut f) {
            return v;
        }
    }
}

#[test]
fn map_ok() {
    let (tx1, rx1) = mpsc::channel::<()>();
    let (tx2, rx2) = mpsc::channel::<()>();

    let fut = MapOk::new(ready::<Result<i32, i32>>(Err(1)), move |_: i32| -> i32 {
        let _tx1 = tx1;
        panic!("should not run");
    });
    let fut = Mapped::new(fut, move |_: Result<i32, i32>| {
        assert!(rx1.recv().is_err());
        tx2.send(()).unwrap()
    });
    run(fut);

    rx2.recv().unwrap();
}

#[test]
fn map_err() {
    let (tx1, rx1) = mpsc::channel::<()>();
    let (tx2, rx2) = mpsc::channel::<()>();

    let fut = MapErr::new(ready::<Result<i32, i32>>(Ok(1)), move |_: i32| -> i32 {
        let _tx1 = tx1;
        panic!("should not run");
    });
    let fut = Mapped::new(fut, move |_: Result<i32, i32>| {
        assert!(rx1.recv().is_err());
        tx2.send(()).unwrap()
    });
    run(fut);

    rx2.recv().unwrap();
}

#[test]
fn then_drops_eagerly() {
    let (tx0, rx0) = mpsc::channel::<()>();
    let (tx1, rx1) = mpsc::channel::<()>();
    let (tx2, rx2) = mpsc::channel::<()>();

    let mut fut = Then::new(FutureData { _data: tx1, future: Recv { rx: rx0 } }, move |_: ()| {
        // tx1 should have been dropped
        assert_eq!(Err(mpsc::TryRecvError::Disconnected), rx1.try_recv());
        tx2.send(()).unwrap();
        ready(())
    });

    assert!(poll_once(&mut fut).is_pending());
    assert_eq!(Err(mpsc::TryRecvError::Empty), rx2.try_recv());
    tx0.send(()).unwrap();
    assert_eq!(Poll::Ready(()), poll_once(&mut fut));
    rx2.recv().unwrap();
}

#[test]
fn and_then_drops_eagerly() {
    let (tx0, rx0) = mpsc::channel::<Result<(), ()>>();
    let (tx1, rx1) = mpsc::channel::<()>();
    let (tx2, rx2) = mpsc::channel::<()>();

    let mut fut = AndThen::new(
        FutureData { _data: tx1, future: Recv { rx: rx0 } },
        move |_: ()| {
            // tx1 should have been dropped
            assert_eq!(Err(mpsc::TryRecvError::Disconnected), rx1.try_recv());
            tx2.send(()).unwrap();
            ready::<Result<(), ()>>(Ok(()))
        },
    );

    assert!(poll_once(&mut fut).is_pending());
    assert_eq!(Err(mpsc::TryRecvError::Empty), rx2.try_recv());
    tx0.send(Ok(())).unwrap();
    assert_eq!(Poll::Ready(Ok(())), poll_once(&mut fut));
    rx2.recv().unwrap();
}

#[test]
fn or_else_drops_eagerly() {
    let (tx0, rx0) = mpsc::channel::<Result<(), ()>>();
    let (tx1, rx1) = mpsc::channel::<()>();
    let (tx2, rx2) = mpsc::channel::<()>();

    let mut fut = OrElse::new(
        FutureData { _data: tx1, future: Recv { rx: rx0 } },
        move |_: ()| {
            // tx1 should have been dropped
            assert_eq!(Err(mpsc::TryRecvError::Disconnected), rx1.try_recv());
            tx2.send(()).unwrap();
            ready::<Result<(), ()>>(Ok(()))
        },
    );

    assert!(poll_once(&mut fut).is_pending());
    assert_eq!(Err(mpsc::TryRecvError::Empty), rx2.try_recv());
    tx0.send(Err(())).unwrap();
    assert_eq!(Poll::Ready(Ok(())), poll_once(&mut fut));
    rx2.recv().unwrap();
}
