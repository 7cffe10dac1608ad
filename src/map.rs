//! Adapters that transform the result of a future with a one-shot closure.
use core::task::Context;
use vstd::prelude::*;
use crate::future::{poll_consume, Future};
use crate::poll::Poll;

verus! {

/// What `map_ok` makes of an outcome: a success goes through `f`, a failure
/// is kept as it is and `f` is not called.
pub open spec fn map_ok_result<T, E, U, F: FnOnce(T) -> U>(
    res: Result<T, E>,
    f: F,
    r: Result<U, E>,
) -> bool {
    match res {
        Ok(t) => r matches Ok(u) && call_ensures(f, (t,), u),
        Err(e) => r == Err::<U, E>(e),
    }
}

/// What `map_err` makes of an outcome: a failure goes through `f`, a
/// success is kept as it is and `f` is not called.
pub open spec fn map_err_result<T, E, E2, F: FnOnce(E) -> E2>(
    res: Result<T, E>,
    f: F,
    r: Result<T, E2>,
) -> bool {
    match res {
        Ok(t) => r == Ok::<T, E2>(t),
        Err(e) => r matches Err(e2) && call_ensures(f, (e,), e2),
    }
}

/// Applies `f` to a success and passes a failure through. `f` is consumed
/// either way, so whatever it captured is released here.
pub fn map_ok_outcome<T, E, U, F: FnOnce(T) -> U>(res: Result<T, E>, f: F) -> (r: Result<U, E>)
    requires
        forall|t: T| #[trigger] call_requires(f, (t,)),
    ensures
        map_ok_result(res, f, r),
{
    match res {
        Ok(t) => Ok(f(t)),
        Err(e) => Err(e),
    }
}

/// Applies `f` to a failure and passes a success through. `f` is consumed
/// either way, so whatever it captured is released here.
pub fn map_err_outcome<T, E, E2, F: FnOnce(E) -> E2>(res: Result<T, E>, f: F) -> (r: Result<
    T,
    E2,
>)
    requires
        forall|e: E| #[trigger] call_requires(f, (e,)),
    ensures
        map_err_result(res, f, r),
{
    match res {
        Ok(t) => Ok(t),
        Err(e) => Err(f(e)),
    }
}

/// A future that applies a closure to the result of another.
pub enum Mapped<Fut, F> {
    /// The inner future has not resolved; the closure waits for its result.
    Incomplete { future: Fut, f: F },
    /// The result has been handed out.
    Complete,
}

impl<Fut, F> Mapped<Fut, F> {
    /// The closure, while it has not been used.
    pub open spec fn pending_closure(&self) -> Option<F> {
        match self {
            Mapped::Incomplete { f, .. } => Some(*f),
            Mapped::Complete => None,
        }
    }
}

impl<Fut: Future, F: FnOnce(Fut::Output) -> T, T> Mapped<Fut, F> {
    pub fn new(future: Fut, f: F) -> (r: Self)
        requires
            future.inv(),
            !future.is_terminated(),
            forall|v: Fut::Output| #[trigger] call_requires(f, (v,)),
        ensures
            r == (Mapped::Incomplete { future, f }),
            r.inv(),
            !r.is_terminated(),
    {
        Mapped::Incomplete { future, f }
    }
}

impl<Fut: Future, F: FnOnce(Fut::Output) -> T, T> Future for Mapped<Fut, F> {
    type Output = T;

    open spec fn inv(&self) -> bool {
        match self {
            Mapped::Incomplete { future, f } => {
                &&& future.inv()
                &&& !future.is_terminated()
                &&& forall|v: Fut::Output| #[trigger] call_requires(*f, (v,))
            },
            Mapped::Complete => true,
        }
    }

    open spec fn is_terminated(&self) -> bool {
        self is Complete
    }

    /// While the inner future is pending, the closure is kept as it is; once
    /// the inner future resolves with `v`, the result is what the closure
    /// gives on `v`.
    open spec fn poll_step(&self, after: &Self, r: Poll<T>) -> bool {
        match self {
            Mapped::Incomplete { future, f } => match r {
                Poll::Pending => match after {
                    Mapped::Incomplete { future: rest, f: kept } => {
                        &&& *kept == *f
                        &&& future.poll_step(rest, Poll::Pending)
                    },
                    Mapped::Complete => false,
                },
                Poll::Ready(x) => {
                    &&& after is Complete
                    &&& exists|v: Fut::Output, rest: Fut|
                        future.poll_step(&rest, Poll::Ready(v)) && call_ensures(*f, (v,), x)
                },
            },
            Mapped::Complete => true,
        }
    }

    /// Polls the inner future; once it resolves, the inner future is dropped
    /// and then the closure is called on its output.
    fn poll(&mut self, cx: &mut Context<'_>) -> (r: Poll<T>)
        ensures
            final(self).is_terminated() <==> r is Ready,
            r is Pending ==> final(self).pending_closure() == old(self).pending_closure(),
    {
        let mut st = Mapped::Complete;
        core::mem::swap(&mut st, self);
        match st {
            Mapped::Incomplete { future, f } => match poll_consume(future, cx) {
                Ok(v) => Poll::Ready(f(v)),
                Err(future) => {
                    *self = Mapped::Incomplete { future, f };
                    Poll::Pending
                },
            },
            Mapped::Complete => Poll::Pending,
        }
    }
}

/// A future that applies a closure to the success of a fallible future and
/// passes a failure through.
pub enum MapOk<Fut, F> {
    /// The inner future has not resolved; the closure waits for its result.
    Incomplete { future: Fut, f: F },
    /// The result has been handed out.
    Complete,
}

impl<Fut, F> MapOk<Fut, F> {
    /// The closure, while the inner future has not resolved.
    pub open spec fn pending_closure(&self) -> Option<F> {
        match self {
            MapOk::Incomplete { f, .. } => Some(*f),
            MapOk::Complete => None,
        }
    }
}

impl<Fut, F, T, E, U> MapOk<Fut, F> where Fut: Future<Output = Result<T, E>>, F: FnOnce(T) -> U {
    pub fn new(future: Fut, f: F) -> (r: Self)
        requires
            future.inv(),
            !future.is_terminated(),
            forall|t: T| #[trigger] call_requires(f, (t,)),
        ensures
            r == (MapOk::Incomplete { future, f }),
            r.inv(),
            !r.is_terminated(),
    {
        MapOk::Incomplete { future, f }
    }
}

impl<Fut, F, T, E, U> Future for MapOk<Fut, F> where
    Fut: Future<Output = Result<T, E>>,
    F: FnOnce(T) -> U,
{
    type Output = Result<U, E>;

    open spec fn inv(&self) -> bool {
        match self {
            MapOk::Incomplete { future, f } => {
                &&& future.inv()
                &&& !future.is_terminated()
                &&& forall|t: T| #[trigger] call_requires(*f, (t,))
            },
            MapOk::Complete => true,
        }
    }

    open spec fn is_terminated(&self) -> bool {
        self is Complete
    }

    /// While the inner future is pending, the closure is kept as it is; once
    /// the inner future resolves with `res`, the result is what `map_ok_result`
    /// says of `res`.
    open spec fn poll_step(&self, after: &Self, r: Poll<Result<U, E>>) -> bool {
        match self {
            MapOk::Incomplete { future, f } => match r {
                Poll::Pending => match after {
                    MapOk::Incomplete { future: rest, f: kept } => {
                        &&& *kept == *f
                        &&& future.poll_step(rest, Poll::Pending)
                    },
                    MapOk::Complete => false,
                },
                Poll::Ready(x) => {
                    &&& after is Complete
                    &&& exists|res: Result<T, E>, rest: Fut|
                        future.poll_step(&rest, Poll::Ready(res)) && map_ok_result(res, *f, x)
                },
            },
            MapOk::Complete => true,
        }
    }

    /// Polls the inner future; once it resolves, the inner future is dropped,
    /// then the outcome goes through `map_ok_outcome`, which consumes the
    /// closure whichever way the outcome went.
    fn poll(&mut self, cx: &mut Context<'_>) -> (r: Poll<Result<U, E>>)
        ensures
            final(self).is_terminated() <==> r is Ready,
            r is Pending ==> final(self).pending_closure() == old(self).pending_closure(),
    {
        let mut st = MapOk::Complete;
        core::mem::swap(&mut st, self);
        match st {
            MapOk::Incomplete { future, f } => {
                let ghost first = future;
                let ghost f0 = f;
                match poll_consume(future, cx) {
                    Ok(res) => {
                        let ghost rest = choose|a: Fut| first.poll_step(&a, Poll::Ready(res));
                        let x = map_ok_outcome(res, f);
                        assert(first.poll_step(&rest, Poll::Ready(res)) && map_ok_result(res, f0, x));
                        Poll::Ready(x)
                    },
                    Err(future) => {
                        *self = MapOk::Incomplete { future, f };
                        Poll::Pending
                    },
                }
            },
            MapOk::Complete => Poll::Pending,
        }
    }
}

/// A future that applies a closure to the failure of a fallible future and
/// passes a success through.
pub enum MapErr<Fut, F> {
    /// The inner future has not resolved; the closure waits for its result.
    Incomplete { future: Fut, f: F },
    /// The result has been handed out.
    Complete,
}

impl<Fut, F> MapErr<Fut, F> {
    /// The closure, while the inner future has not resolved.
    pub open spec fn pending_closure(&self) -> Option<F> {
        match self {
            MapErr::Incomplete { f, .. } => Some(*f),
            MapErr::Complete => None,
        }
    }
}

impl<Fut, F, T, E, E2> MapErr<Fut, F> where Fut: Future<Output = Result<T, E>>, F: FnOnce(E) -> E2 {
    pub fn new(future: Fut, f: F) -> (r: Self)
        requires
            future.inv(),
            !future.is_terminated(),
            forall|e: E| #[trigger] call_requires(f, (e,)),
        ensures
            r == (MapErr::Incomplete { future, f }),
            r.inv(),
            !r.is_terminated(),
    {
        MapErr::Incomplete { future, f }
    }
}

impl<Fut, F, T, E, E2> Future for MapErr<Fut, F> where
    Fut: Future<Output = Result<T, E>>,
    F: FnOnce(E) -> E2,
{
    type Output = Result<T, E2>;

    open spec fn inv(&self) -> bool {
        match self {
            MapErr::Incomplete { future, f } => {
                &&& future.inv()
                &&& !future.is_terminated()
                &&& forall|e: E| #[trigger] call_requires(*f, (e,))
            },
            MapErr::Complete => true,
        }
    }

    open spec fn is_terminated(&self) -> bool {
        self is Complete
    }

    /// While the inner future is pending, the closure is kept as it is; once
    /// the inner future resolves with `res`, the result is what `map_err_result`
    /// says of `res`.
    open spec fn poll_step(&self, after: &Self, r: Poll<Result<T, E2>>) -> bool {
        match self {
            MapErr::Incomplete { future, f } => match r {
                Poll::Pending => match after {
                    MapErr::Incomplete { future: rest, f: kept } => {
                        &&& *kept == *f
                        &&& future.poll_step(rest, Poll::Pending)
                    },
                    MapErr::Complete => false,
                },
                Poll::Ready(x) => {
                    &&& after is Complete
                    &&& exists|res: Result<T, E>, rest: Fut|
                        future.poll_step(&rest, Poll::Ready(res)) && map_err_result(res, *f, x)
                },
            },
            MapErr::Complete => true,
        }
    }

    /// Polls the inner future; once it resolves, the inner future is dropped,
    /// then the outcome goes through `map_err_outcome`, which consumes the
    /// closure whichever way the outcome went.
    fn poll(&mut self, cx: &mut Context<'_>) -> (r: Poll<Result<T, E2>>)
        ensures
            final(self).is_terminated() <==> r is Ready,
            r is Pending ==> final(self).pending_closure() == old(self).pending_closure(),
    {
        let mut st = MapErr::Complete;
        core::mem::swap(&mut st, self);
        match st {
            MapErr::Incomplete { future, f } => {
                let ghost first = future;
                let ghost f0 = f;
                match poll_consume(future, cx) {
                    Ok(res) => {
                        let ghost rest = choose|a: Fut| first.poll_step(&a, Poll::Ready(res));
                        let x = map_err_outcome(res, f);
                        assert(first.poll_step(&rest, Poll::Ready(res)) && map_err_result(res, f0, x));
                        Poll::Ready(x)
                    },
                    Err(future) => {
                        *self = MapErr::Incomplete { future, f };
                        Poll::Pending
                    },
                }
            },
            MapErr::Complete => Poll::Pending,
        }
    }
}

} // verus!
