//! Adapters that chain a second future after a first one: the closure turns
//! the first result into the future that is polled next.
use core::task::Context;
use vstd::prelude::*;
use crate::future::{poll_consume, Future};
use crate::poll::Poll;

verus! {

/// What a conditional chain does with the first result: start a
/// continuation, or finish with a result at once.
#[derive(Debug)]
pub enum Stage<Fut, R> {
    Continue(Fut),
    Finish(R),
}

/// What `and_then` does with the first outcome: a success goes to `f`,
/// whose future is the continuation; a failure finishes the chain unchanged.
pub open spec fn and_then_stage<T, E, Fut2, F: FnOnce(T) -> Fut2, R>(
    res: Result<T, E>,
    f: F,
    st: Stage<Fut2, Result<R, E>>,
) -> bool {
    match res {
        Ok(t) => st matches Stage::Continue(g) && call_ensures(f, (t,), g),
        Err(e) => st == Stage::<Fut2, Result<R, E>>::Finish(Err(e)),
    }
}

/// What `or_else` does with the first outcome: a failure goes to `f`, whose
/// future is the continuation; a success finishes the chain unchanged.
pub open spec fn or_else_stage<T, E, Fut2, F: FnOnce(E) -> Fut2, R>(
    res: Result<T, E>,
    f: F,
    st: Stage<Fut2, Result<T, R>>,
) -> bool {
    match res {
        Ok(t) => st == Stage::<Fut2, Result<T, R>>::Finish(Ok(t)),
        Err(e) => st matches Stage::Continue(g) && call_ensures(f, (e,), g),
    }
}

/// Decides an `and_then` step. `f` is consumed either way, so whatever it
/// captured is released here, also when it is not called.
pub fn and_then_step<T, E, Fut2, F: FnOnce(T) -> Fut2, R>(res: Result<T, E>, f: F) -> (st: Stage<
    Fut2,
    Result<R, E>,
>)
    requires
        forall|t: T| #[trigger] call_requires(f, (t,)),
    ensures
        and_then_stage(res, f, st),
{
    match res {
        Ok(t) => Stage::Continue(f(t)),
        Err(e) => Stage::Finish(Err(e)),
    }
}

/// Decides an `or_else` step. `f` is consumed either way, so whatever it
/// captured is released here, also when it is not called.
pub fn or_else_step<T, E, Fut2, F: FnOnce(E) -> Fut2, R>(res: Result<T, E>, f: F) -> (st: Stage<
    Fut2,
    Result<T, R>,
>)
    requires
        forall|e: E| #[trigger] call_requires(f, (e,)),
    ensures
        or_else_stage(res, f, st),
{
    match res {
        Ok(t) => Stage::Finish(Ok(t)),
        Err(e) => Stage::Continue(f(e)),
    }
}

/// `and_then` on a failure finishes with that failure unchanged and starts
/// no continuation, whatever the closure is.
pub proof fn and_then_passes_failure_through<T, E, Fut2, F: FnOnce(T) -> Fut2, R>(
    e: E,
    f: F,
    st: Stage<Fut2, Result<R, E>>,
)
    requires
        and_then_stage(Err::<T, E>(e), f, st),
    ensures
        st == Stage::<Fut2, Result<R, E>>::Finish(Err(e)),
{
}

/// `or_else` on a success finishes with that success unchanged and starts
/// no continuation, whatever the closure is.
pub proof fn or_else_passes_success_through<T, E, Fut2, F: FnOnce(E) -> Fut2, R>(
    t: T,
    f: F,
    st: Stage<Fut2, Result<T, R>>,
)
    requires
        or_else_stage(Ok::<T, E>(t), f, st),
    ensures
        st == Stage::<Fut2, Result<T, R>>::Finish(Ok(t)),
{
}

/// Polls a continuation that is held by value; hands it back while it is
/// pending, and drops it once it has resolved.
fn poll_second<Fut2: Future>(future: Fut2, cx: &mut Context<'_>) -> (r: (
    Poll<Fut2::Output>,
    Option<Fut2>,
))
    requires
        future.inv(),
        !future.is_terminated(),
    ensures
        r.0 is Pending <==> r.1 is Some,
        r.1 matches Some(g) ==> {
            &&& g.inv()
            &&& !g.is_terminated()
            &&& future.poll_step(&g, Poll::Pending)
        },
        r.1 is None ==> exists|g: Fut2| future.poll_step(&g, r.0),
{
    match poll_consume(future, cx) {
        Ok(v) => (Poll::Ready(v), None),
        Err(g) => (Poll::Pending, Some(g)),
    }
}

/// A future that runs a closure on the result of a first future and then
/// runs the future that the closure returned.
pub enum Then<Fut1, Fut2, F> {
    /// The first future runs; the closure waits for its outcome.
    First { future: Fut1, f: F },
    /// The continuation runs; the first future and the closure are gone.
    Second { continuation: Fut2 },
    /// The result has been handed out.
    Empty,
}

impl<Fut1, Fut2, F> Then<Fut1, Fut2, F> {
    /// The closure, while the first future has not resolved.
    pub open spec fn pending_closure(&self) -> Option<F> {
        match self {
            Then::First { f, .. } => Some(*f),
            _ => None,
        }
    }
}

impl<Fut1, Fut2, F> Then<Fut1, Fut2, F> where
    Fut1: Future,
    Fut2: Future,
    F: FnOnce(Fut1::Output) -> Fut2,
{
    /// One poll of the continuation `c`: while it is pending the adapter
    /// holds only what it moved to; once it resolves the adapter is empty
    /// and its result is the adapter's.
    pub open spec fn continuation_step(c: Fut2, after: &Self, r: Poll<Fut2::Output>) -> bool {
        match r {
            Poll::Pending => match after {
                Then::Second { continuation } => c.poll_step(continuation, Poll::Pending),
                _ => false,
            },
            Poll::Ready(_) => after is Empty && exists|rest: Fut2| c.poll_step(&rest, r),
        }
    }

    pub fn new(future: Fut1, f: F) -> (r: Self)
        requires
            future.inv(),
            !future.is_terminated(),
            forall|a: Fut1::Output| #[trigger] call_requires(f, (a,)),
            forall|a: Fut1::Output, g: Fut2|
                #[trigger] call_ensures(f, (a,), g) ==> g.inv() && !g.is_terminated(),
        ensures
            r == (Then::<Fut1, Fut2, F>::First { future, f }),
            r.inv(),
            !r.is_terminated(),
    {
        Then::First { future, f }
    }
}

impl<Fut1, Fut2, F> Future for Then<Fut1, Fut2, F> where
    Fut1: Future,
    Fut2: Future,
    F: FnOnce(Fut1::Output) -> Fut2,
{
    type Output = Fut2::Output;

    open spec fn inv(&self) -> bool {
        match self {
            Then::First { future, f } => {
                &&& future.inv()
                &&& !future.is_terminated()
                &&& forall|a: Fut1::Output| #[trigger] call_requires(*f, (a,))
                &&& forall|a: Fut1::Output, g: Fut2|
                    #[trigger] call_ensures(*f, (a,), g) ==> g.inv() && !g.is_terminated()
            },
            Then::Second { continuation } => continuation.inv() && !continuation.is_terminated(),
            Then::Empty => true,
        }
    }

    open spec fn is_terminated(&self) -> bool {
        self is Empty
    }

    /// While the first future is pending, it moves on and the closure is
    /// kept as it is. Once it resolves, the closure makes a continuation of
    /// its output, which is polled at once.
    open spec fn poll_step(&self, after: &Self, r: Poll<Fut2::Output>) -> bool {
        match self {
            Then::First { future, f } => {
                ||| match after {
                    Then::First { future: rest, f: kept } => {
                        &&& r is Pending
                        &&& *kept == *f
                        &&& future.poll_step(rest, Poll::Pending)
                    },
                    _ => false,
                }
                ||| exists|v: Fut1::Output, rest: Fut1, c: Fut2|
                    future.poll_step(&rest, Poll::Ready(v)) && call_ensures(*f, (v,), c)
                        && Self::continuation_step(c, after, r)
            },
            Then::Second { continuation } => Self::continuation_step(*continuation, after, r),
            Then::Empty => true,
        }
    }

    /// Polls the first future; once it resolves, the first future is dropped
    /// and the closure is called on its output; the continuation it returns
    /// is polled in the same call.
    fn poll(&mut self, cx: &mut Context<'_>) -> (r: Poll<Fut2::Output>)
        ensures
            final(self).is_terminated() <==> r is Ready,
            old(self).pending_closure() is None ==> final(self).pending_closure() is None,
            final(self).pending_closure() is Some ==> final(self).pending_closure()
                == old(self).pending_closure(),
    {
        let mut st = Then::Empty;
        core::mem::swap(&mut st, self);
        match st {
            Then::First { future, f } => {
                let ghost first = future;
                match poll_consume(future, cx) {
                    Ok(v) => {
                        let ghost rest = choose|a: Fut1| first.poll_step(&a, Poll::Ready(v));
                        let g = f(v);
                        let (r, left) = poll_second(g, cx);
                        if let Some(g2) = left {
                            *self = Then::Second { continuation: g2 };
                        }
                        assert(first.poll_step(&rest, Poll::Ready(v)) && call_ensures(f, (v,), g)
                            && Self::continuation_step(g, &*self, r));
                        r
                    },
                    Err(future) => {
                        *self = Then::First { future, f };
                        Poll::Pending
                    },
                }
            },
            Then::Second { continuation } => {
                let (r, left) = poll_second(continuation, cx);
                if let Some(g) = left {
                    *self = Then::Second { continuation: g };
                }
                r
            },
            Then::Empty => Poll::Pending,
        }
    }
}

/// A future that, on a success of the first future, runs the future that a
/// closure makes of it; a failure is the result as it is.
pub enum AndThen<Fut1, Fut2, F> {
    /// The first future runs; the closure waits for its outcome.
    First { future: Fut1, f: F },
    /// The continuation runs; the first future and the closure are gone.
    Second { continuation: Fut2 },
    /// The result has been handed out.
    Empty,
}

impl<Fut1, Fut2, F> AndThen<Fut1, Fut2, F> {
    /// The closure, while the first future has not resolved.
    pub open spec fn pending_closure(&self) -> Option<F> {
        match self {
            AndThen::First { f, .. } => Some(*f),
            _ => None,
        }
    }
}

impl<Fut1, Fut2, F, T, E, R> AndThen<Fut1, Fut2, F> where
    Fut1: Future<Output = Result<T, E>>,
    Fut2: Future<Output = Result<R, E>>,
    F: FnOnce(T) -> Fut2,
{
    /// One poll of the continuation `c`: while it is pending the adapter
    /// holds only what it moved to; once it resolves the adapter is empty
    /// and its result is the adapter's.
    pub open spec fn continuation_step(c: Fut2, after: &Self, r: Poll<Result<R, E>>) -> bool {
        match r {
            Poll::Pending => match after {
                AndThen::Second { continuation } => c.poll_step(continuation, Poll::Pending),
                _ => false,
            },
            Poll::Ready(_) => after is Empty && exists|rest: Fut2| c.poll_step(&rest, r),
        }
    }

    /// What follows the decision `st`: the continuation it started, or its
    /// result at once.
    pub open spec fn stage_step(st: Stage<Fut2, Result<R, E>>, after: &Self, r: Poll<Result<R, E>>) -> bool {
        match st {
            Stage::Continue(c) => Self::continuation_step(c, after, r),
            Stage::Finish(x) => r == Poll::Ready(x) && after is Empty,
        }
    }

    pub fn new(future: Fut1, f: F) -> (r: Self)
        requires
            future.inv(),
            !future.is_terminated(),
            forall|a: T| #[trigger] call_requires(f, (a,)),
            forall|a: T, g: Fut2|
                #[trigger] call_ensures(f, (a,), g) ==> g.inv() && !g.is_terminated(),
        ensures
            r == (AndThen::<Fut1, Fut2, F>::First { future, f }),
            r.inv(),
            !r.is_terminated(),
    {
        AndThen::First { future, f }
    }
}

impl<Fut1, Fut2, F, T, E, R> Future for AndThen<Fut1, Fut2, F> where
    Fut1: Future<Output = Result<T, E>>,
    Fut2: Future<Output = Result<R, E>>,
    F: FnOnce(T) -> Fut2,
{
    type Output = Result<R, E>;

    open spec fn inv(&self) -> bool {
        match self {
            AndThen::First { future, f } => {
                &&& future.inv()
                &&& !future.is_terminated()
                &&& forall|a: T| #[trigger] call_requires(*f, (a,))
                &&& forall|a: T, g: Fut2|
                    #[trigger] call_ensures(*f, (a,), g) ==> g.inv() && !g.is_terminated()
            },
            AndThen::Second { continuation } => continuation.inv() && !continuation.is_terminated(),
            AndThen::Empty => true,
        }
    }

    open spec fn is_terminated(&self) -> bool {
        self is Empty
    }

    /// While the first future is pending, it moves on and the closure is
    /// kept as it is. Once it resolves, `and_then_stage` decides what
    /// follows.
    open spec fn poll_step(&self, after: &Self, r: Poll<Result<R, E>>) -> bool {
        match self {
            AndThen::First { future, f } => {
                ||| match after {
                    AndThen::First { future: rest, f: kept } => {
                        &&& r is Pending
                        &&& *kept == *f
                        &&& future.poll_step(rest, Poll::Pending)
                    },
                    _ => false,
                }
                ||| exists|res: Result<T, E>, rest: Fut1, st: Stage<Fut2, Result<R, E>>|
                    future.poll_step(&rest, Poll::Ready(res)) && and_then_stage(res, *f, st)
                        && Self::stage_step(st, after, r)
            },
            AndThen::Second { continuation } => Self::continuation_step(*continuation, after, r),
            AndThen::Empty => true,
        }
    }

    /// Polls the first future; once it resolves, the first future is dropped
    /// and `and_then_step` decides, consuming the closure: either the
    /// closure's future becomes the continuation and is polled in the same
    /// call, or the failure is handed out unchanged.
    fn poll(&mut self, cx: &mut Context<'_>) -> (r: Poll<Result<R, E>>)
        ensures
            final(self).is_terminated() <==> r is Ready,
            old(self).pending_closure() is None ==> final(self).pending_closure() is None,
            final(self).pending_closure() is Some ==> final(self).pending_closure()
                == old(self).pending_closure(),
    {
        let mut st = AndThen::Empty;
        core::mem::swap(&mut st, self);
        match st {
            AndThen::First { future, f } => {
                let ghost first = future;
                match poll_consume(future, cx) {
                    Ok(v) => {
                        let ghost rest = choose|a: Fut1| first.poll_step(&a, Poll::Ready(v));
                        let ghost f0 = f;
                        let st = and_then_step(v, f);
                        let ghost st0 = st;
                        let r = match st {
                            Stage::Continue(g) => {
                                let (r, left) = poll_second(g, cx);
                                if let Some(g2) = left {
                                    *self = AndThen::Second { continuation: g2 };
                                }
                                r
                            },
                            Stage::Finish(x) => Poll::Ready(x),
                        };
                        assert(first.poll_step(&rest, Poll::Ready(v)) && and_then_stage(v, f0, st0)
                            && Self::stage_step(st0, &*self, r));
                        r
                    },
                    Err(future) => {
                        *self = AndThen::First { future, f };
                        Poll::Pending
                    },
                }
            },
            AndThen::Second { continuation } => {
                let (r, left) = poll_second(continuation, cx);
                if let Some(g) = left {
                    *self = AndThen::Second { continuation: g };
                }
                r
            },
            AndThen::Empty => Poll::Pending,
        }
    }
}

/// A future that, on a failure of the first future, runs the future that a
/// closure makes of it; a success is the result as it is.
pub enum OrElse<Fut1, Fut2, F> {
    /// The first future runs; the closure waits for its outcome.
    First { future: Fut1, f: F },
    /// The continuation runs; the first future and the closure are gone.
    Second { continuation: Fut2 },
    /// The result has been handed out.
    Empty,
}

impl<Fut1, Fut2, F> OrElse<Fut1, Fut2, F> {
    /// The closure, while the first future has not resolved.
    pub open spec fn pending_closure(&self) -> Option<F> {
        match self {
            OrElse::First { f, .. } => Some(*f),
            _ => None,
        }
    }
}

impl<Fut1, Fut2, F, T, E, R> OrElse<Fut1, Fut2, F> where
    Fut1: Future<Output = Result<T, E>>,
    Fut2: Future<Output = Result<T, R>>,
    F: FnOnce(E) -> Fut2,
{
    /// One poll of the continuation `c`: while it is pending the adapter
    /// holds only what it moved to; once it resolves the adapter is empty
    /// and its result is the adapter's.
    pub open spec fn continuation_step(c: Fut2, after: &Self, r: Poll<Result<T, R>>) -> bool {
        match r {
            Poll::Pending => match after {
                OrElse::Second { continuation } => c.poll_step(continuation, Poll::Pending),
                _ => false,
            },
            Poll::Ready(_) => after is Empty && exists|rest: Fut2| c.poll_step(&rest, r),
        }
    }

    /// What follows the decision `st`: the continuation it started, or its
    /// result at once.
    pub open spec fn stage_step(st: Stage<Fut2, Result<T, R>>, after: &Self, r: Poll<Result<T, R>>) -> bool {
        match st {
            Stage::Continue(c) => Self::continuation_step(c, after, r),
            Stage::Finish(x) => r == Poll::Ready(x) && after is Empty,
        }
    }

    pub fn new(future: Fut1, f: F) -> (r: Self)
        requires
            future.inv(),
            !future.is_terminated(),
            forall|a: E| #[trigger] call_requires(f, (a,)),
            forall|a: E, g: Fut2|
                #[trigger] call_ensures(f, (a,), g) ==> g.inv() && !g.is_terminated(),
        ensures
            r == (OrElse::<Fut1, Fut2, F>::First { future, f }),
            r.inv(),
            !r.is_terminated(),
    {
        OrElse::First { future, f }
    }
}

impl<Fut1, Fut2, F, T, E, R> Future for OrElse<Fut1, Fut2, F> where
    Fut1: Future<Output = Result<T, E>>,
    Fut2: Future<Output = Result<T, R>>,
    F: FnOnce(E) -> Fut2,
{
    type Output = Result<T, R>;

    open spec fn inv(&self) -> bool {
        match self {
            OrElse::First { future, f } => {
                &&& future.inv()
                &&& !future.is_terminated()
                &&& forall|a: E| #[trigger] call_requires(*f, (a,))
                &&& forall|a: E, g: Fut2|
                    #[trigger] call_ensures(*f, (a,), g) ==> g.inv() && !g.is_terminated()
            },
            OrElse::Second { continuation } => continuation.inv() && !continuation.is_terminated(),
            OrElse::Empty => true,
        }
    }

    open spec fn is_terminated(&self) -> bool {
        self is Empty
    }

    /// While the first future is pending, it moves on and the closure is
    /// kept as it is. Once it resolves, `or_else_stage` decides what
    /// follows.
    open spec fn poll_step(&self, after: &Self, r: Poll<Result<T, R>>) -> bool {
        match self {
            OrElse::First { future, f } => {
                ||| match after {
                    OrElse::First { future: rest, f: kept } => {
                        &&& r is Pending
                        &&& *kept == *f
                        &&& future.poll_step(rest, Poll::Pending)
                    },
                    _ => false,
                }
                ||| exists|res: Result<T, E>, rest: Fut1, st: Stage<Fut2, Result<T, R>>|
                    future.poll_step(&rest, Poll::Ready(res)) && or_else_stage(res, *f, st)
                        && Self::stage_step(st, after, r)
            },
            OrElse::Second { continuation } => Self::continuation_step(*continuation, after, r),
            OrElse::Empty => true,
        }
    }

    /// Polls the first future; once it resolves, the first future is dropped
    /// and `or_else_step` decides, consuming the closure: either the
    /// closure's future becomes the continuation and is polled in the same
    /// call, or the success is handed out unchanged.
    fn poll(&mut self, cx: &mut Context<'_>) -> (r: Poll<Result<T, R>>)
        ensures
            final(self).is_terminated() <==> r is Ready,
            old(self).pending_closure() is None ==> final(self).pending_closure() is None,
            final(self).pending_closure() is Some ==> final(self).pending_closure()
                == old(self).pending_closure(),
    {
        let mut st = OrElse::Empty;
        core::mem::swap(&mut st, self);
        match st {
            OrElse::First { future, f } => {
                let ghost first = future;
                match poll_consume(future, cx) {
                    Ok(v) => {
                        let ghost rest = choose|a: Fut1| first.poll_step(&a, Poll::Ready(v));
                        let ghost f0 = f;
                        let st = or_else_step(v, f);
                        let ghost st0 = st;
                        let r = match st {
                            Stage::Continue(g) => {
                                let (r, left) = poll_second(g, cx);
                                if let Some(g2) = left {
                                    *self = OrElse::Second { continuation: g2 };
                                }
                                r
                            },
                            Stage::Finish(x) => Poll::Ready(x),
                        };
                        assert(first.poll_step(&rest, Poll::Ready(v)) && or_else_stage(v, f0, st0)
                            && Self::stage_step(st0, &*self, r));
                        r
                    },
                    Err(future) => {
                        *self = OrElse::First { future, f };
                        Poll::Pending
                    },
                }
            },
            OrElse::Second { continuation } => {
                let (r, left) = poll_second(continuation, cx);
                if let Some(g) = left {
                    *self = OrElse::Second { continuation: g };
                }
                r
            },
            OrElse::Empty => Poll::Pending,
        }
    }
}

} // verus!
