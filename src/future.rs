//! Futures: values that are polled until they produce exactly one result.
use core::task::Context;
use vstd::prelude::*;
use crate::chain::{AndThen, OrElse, Then};
use crate::map::{MapErr, MapOk, Mapped};
use crate::poll::Poll;

verus! {

/// An asynchronous value that produces exactly one result.
///
/// `inv` is what the value needs to be polled; `is_terminated` holds once it
/// has produced its result. A value is not polled again after it has
/// produced its result; where the value keeps track of that, `is_terminated`
/// says so and `poll` requires it to be false. `poll_step(before, after, r)`
/// is what one poll may do: move the future from `before` to `after` and
/// hand out `r`. A future that defines none of them needs nothing to be
/// polled, never counts as terminated and promises nothing of its steps.
pub trait Future {
    type Output;

    open spec fn inv(&self) -> bool {
        true
    }

    open spec fn is_terminated(&self) -> bool {
        false
    }

    open spec fn poll_step(&self, after: &Self, r: Poll<Self::Output>) -> bool {
        true
    }

    fn poll(&mut self, cx: &mut Context<'_>) -> (r: Poll<Self::Output>)
        requires
            old(self).inv(),
            !old(self).is_terminated(),
        ensures
            final(self).inv(),
            r is Pending ==> !final(self).is_terminated(),
            old(self).poll_step(&*final(self), r),
    ;
}

/// The combinators, as methods of every future.
pub trait FutureExt: Future + Sized {
    /// Applies `f` to the result.
    fn map<F, U>(self, f: F) -> (r: Mapped<Self, F>) where
        F: FnOnce(Self::Output) -> U,
        requires
            self.inv(),
            !self.is_terminated(),
            forall|v: Self::Output| #[trigger] call_requires(f, (v,)),
        ensures
            r == (Mapped::<Self, F>::Incomplete { future: self, f }),
    {
        Mapped::new(self, f)
    }

    /// Applies `f` to a success and passes a failure through.
    fn map_ok<T, E, F, U>(self, f: F) -> (r: MapOk<Self, F>) where
        Self: Future<Output = Result<T, E>>,
        F: FnOnce(T) -> U,
        requires
            self.inv(),
            !self.is_terminated(),
            forall|t: T| #[trigger] call_requires(f, (t,)),
        ensures
            r == (MapOk::<Self, F>::Incomplete { future: self, f }),
    {
        MapOk::new(self, f)
    }

    /// Applies `f` to a failure and passes a success through.
    fn map_err<T, E, F, E2>(self, f: F) -> (r: MapErr<Self, F>) where
        Self: Future<Output = Result<T, E>>,
        F: FnOnce(E) -> E2,
        requires
            self.inv(),
            !self.is_terminated(),
            forall|e: E| #[trigger] call_requires(f, (e,)),
        ensures
            r == (MapErr::<Self, F>::Incomplete { future: self, f }),
    {
        MapErr::new(self, f)
    }

    /// Runs the future that `f` makes of the result.
    fn then<F, Fut2>(self, f: F) -> (r: Then<Self, Fut2, F>) where
        Fut2: Future,
        F: FnOnce(Self::Output) -> Fut2,
        requires
            self.inv(),
            !self.is_terminated(),
            forall|v: Self::Output| #[trigger] call_requires(f, (v,)),
            forall|v: Self::Output, g: Fut2|
                #[trigger] call_ensures(f, (v,), g) ==> g.inv() && !g.is_terminated(),
        ensures
            r == (Then::<Self, Fut2, F>::First { future: self, f }),
    {
        Then::new(self, f)
    }

    /// On a success, runs the future that `f` makes of it; a failure is the
    /// result as it is.
    fn and_then<T, E, F, Fut2, R>(self, f: F) -> (r: AndThen<Self, Fut2, F>) where
        Self: Future<Output = Result<T, E>>,
        Fut2: Future<Output = Result<R, E>>,
        F: FnOnce(T) -> Fut2,
        requires
            self.inv(),
            !self.is_terminated(),
            forall|t: T| #[trigger] call_requires(f, (t,)),
            forall|t: T, g: Fut2|
                #[trigger] call_ensures(f, (t,), g) ==> g.inv() && !g.is_terminated(),
        ensures
            r == (AndThen::<Self, Fut2, F>::First { future: self, f }),
    {
        AndThen::new(self, f)
    }

    /// On a failure, runs the future that `f` makes of it; a success is the
    /// result as it is.
    fn or_else<T, E, F, Fut2, R>(self, f: F) -> (r: OrElse<Self, Fut2, F>) where
        Self: Future<Output = Result<T, E>>,
        Fut2: Future<Output = Result<T, R>>,
        F: FnOnce(E) -> Fut2,
        requires
            self.inv(),
            !self.is_terminated(),
            forall|e: E| #[trigger] call_requires(f, (e,)),
            forall|e: E, g: Fut2|
                #[trigger] call_ensures(f, (e,), g) ==> g.inv() && !g.is_terminated(),
        ensures
            r == (OrElse::<Self, Fut2, F>::First { future: self, f }),
    {
        OrElse::new(self, f)
    }
}

impl<Fut: Future> FutureExt for Fut {
}

/// A future that is ready at once with a value it holds.
pub struct Ready<T> {
    value: Option<T>,
}

impl<T> Ready<T> {
    pub closed spec fn value(&self) -> Option<T> {
        self.value
    }
}

/// Builds a future that resolves to `v` on its first poll.
pub fn ready<T>(v: T) -> (r: Ready<T>)
    ensures
        r.value() == Some(v),
        r.inv(),
        !r.is_terminated(),
{
    Ready { value: Some(v) }
}

impl<T> Future for Ready<T> {
    type Output = T;

    open spec fn inv(&self) -> bool {
        true
    }

    open spec fn is_terminated(&self) -> bool {
        self.value() is None
    }

    open spec fn poll_step(&self, after: &Self, r: Poll<T>) -> bool {
        &&& self.value() matches Some(v) && r == Poll::Ready(v)
        &&& after.value() is None
    }

    fn poll(&mut self, cx: &mut Context<'_>) -> (r: Poll<T>) {
        let mut taken: Option<T> = None;
        core::mem::swap(&mut taken, &mut self.value);
        match taken {
            Some(v) => Poll::Ready(v),
            None => Poll::Pending,
        }
    }
}

/// One poll of `fut` may hand out `v`.
pub open spec fn resolves_with<Fut: Future>(fut: Fut, v: Fut::Output) -> bool {
    exists|after: Fut| fut.poll_step(&after, Poll::Ready(v))
}

/// Polls `fut`, taking it by value: when it resolves it is dropped here,
/// before the caller sees its output; while it is pending it is handed back.
pub(crate) fn poll_consume<Fut: Future>(fut: Fut, cx: &mut Context<'_>) -> (r: Result<
    Fut::Output,
    Fut,
>)
    requires
        fut.inv(),
        !fut.is_terminated(),
    ensures
        r matches Err(rest) ==> {
            &&& rest.inv()
            &&& !rest.is_terminated()
            &&& fut.poll_step(&rest, Poll::Pending)
        },
        r matches Ok(v) ==> resolves_with(fut, v),
{
    let ghost before = fut;
    let mut fut = fut;
    match fut.poll(cx) {
        Poll::Ready(v) => {
            assert(before.poll_step(&fut, Poll::Ready(v)));
            assert(resolves_with(before, v));
            Ok(v)
        },
        Poll::Pending => Err(fut),
    }
}

} // verus!
