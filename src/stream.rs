//! Streams, and the bridge that turns "the next item of a stream" into a
//! single-shot future.
use core::task::Context;
use std::collections::VecDeque;
use vstd::prelude::*;
use crate::future::Future;
use crate::poll::Poll;

verus! {

/// An asynchronous value that produces a sequence of items, then signals
/// exhaustion with `Ready(None)`.
///
/// `poll_next_step(before, after, r)` is what one poll may do: move the
/// stream from `before` to `after` and hand out `r`. A stream that does not
/// define it promises nothing of its steps.
pub trait Stream {
    type Item;

    open spec fn inv(&self) -> bool {
        true
    }

    open spec fn poll_next_step(&self, after: &Self, r: Poll<Option<Self::Item>>) -> bool {
        true
    }

    fn poll_next(&mut self, cx: &mut Context<'_>) -> (r: Poll<Option<Self::Item>>)
        requires
            old(self).inv(),
        ensures
            final(self).inv(),
            old(self).poll_next_step(&*final(self), r),
    ;
}

/// A stream that hands out the items it holds, in order, one per poll, and
/// is never pending.
pub struct Iter<T> {
    items: VecDeque<T>,
}

impl<T> View for Iter<T> {
    type V = Seq<T>;

    /// The items not handed out yet, in order.
    closed spec fn view(&self) -> Seq<T> {
        self.items@
    }
}

/// Builds a stream of the items of `items`, in order.
pub fn iter<T>(items: Vec<T>) -> (r: Iter<T>)
    ensures
        r@ == items@,
{
    let ghost all = items@;
    let mut items = items;
    let mut queue: VecDeque<T> = VecDeque::new();
    while items.len() > 0
        invariant
            items@ + queue@ == all,
        decreases items.len(),
    {
        let ghost before = items@;
        let x = items.pop().unwrap();
        queue.push_front(x);
        assert(items@ + queue@ =~= before + queue@.subrange(1, queue@.len() as int)) by {
            assert(before =~= items@.push(x));
        }
    }
    assert(queue@ =~= all);
    Iter { items: queue }
}

impl<T> Stream for Iter<T> {
    type Item = T;

    open spec fn inv(&self) -> bool {
        true
    }

    open spec fn poll_next_step(&self, after: &Self, r: Poll<Option<T>>) -> bool {
        if self@.len() > 0 {
            r == Poll::Ready(Some(self@[0])) && after@ == self@.drop_first()
        } else {
            r == Poll::<Option<T>>::Ready(None) && after@ == self@
        }
    }

    fn poll_next(&mut self, cx: &mut Context<'_>) -> (r: Poll<Option<T>>) {
        Poll::Ready(self.items.pop_front())
    }
}

/// Three successive polls of a stream that holds `a` then `b` hand out
/// `Some(a)`, `Some(b)` and `None`, in that order, and leave it empty.
pub proof fn next_items_in_order<T>(
    a: T,
    b: T,
    s0: Iter<T>,
    s1: Iter<T>,
    s2: Iter<T>,
    s3: Iter<T>,
    r1: Poll<Option<T>>,
    r2: Poll<Option<T>>,
    r3: Poll<Option<T>>,
)
    requires
        s0@ == seq![a, b],
        s0.poll_next_step(&s1, r1),
        s1.poll_next_step(&s2, r2),
        s2.poll_next_step(&s3, r3),
    ensures
        r1 == Poll::Ready(Some(a)),
        r2 == Poll::Ready(Some(b)),
        r3 == Poll::<Option<T>>::Ready(None),
        s3@.len() == 0,
{
    assert(s1@ =~= seq![b]);
    assert(s2@.len() == 0);
}

/// A future of the next item of a stream: `Some(item)`, or `None` once the
/// stream is exhausted. It borrows the stream for as long as it lives and
/// holds nothing else.
#[derive(Debug)]
pub struct Next<'a, St> {
    pub stream: &'a mut St,
}

impl<'a, St> Next<'a, St> {
    /// The borrowed stream as it stands now.
    pub closed spec fn stream(&self) -> St {
        *self.stream
    }

}

impl<'a, St: Stream> Next<'a, St> {
    pub fn new(stream: &'a mut St) -> (r: Self)
        ensures
            *r.stream == *old(stream),
            *final(r.stream) == *final(stream),
    {
        Next { stream }
    }
}

/// The bridge to `Next`, as a method of every stream.
pub trait StreamExt: Stream + Sized {
    /// A future of the next item of this stream.
    fn next(&mut self) -> (r: Next<'_, Self>)
        ensures
            *r.stream == *old(self),
            *final(r.stream) == *final(self),
    {
        Next::new(self)
    }
}

impl<St: Stream> StreamExt for St {
}

impl<'a, St: Stream> Future for Next<'a, St> {
    type Output = Option<St::Item>;

    open spec fn inv(&self) -> bool {
        (*self.stream).inv()
    }

    /// A `Next` holds no state of its own, so nothing marks it as used: a
    /// driver does not poll it again once it has handed out its result.
    open spec fn is_terminated(&self) -> bool {
        false
    }

    /// One poll of the stream, handed on unchanged.
    open spec fn poll_step(&self, after: &Self, r: Poll<Option<St::Item>>) -> bool {
        (*self.stream).poll_next_step(&*after.stream, r)
    }

    /// Polls the borrowed stream once; the borrow itself is kept.
    fn poll(&mut self, cx: &mut Context<'_>) -> (r: Poll<Option<St::Item>>)
        ensures
            *final(final(self).stream) == *final(old(self).stream),
    {
        self.stream.poll_next(cx)
    }
}

} // verus!
