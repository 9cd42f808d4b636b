//! What it takes for a value to be moved into an async task.

use std::future::Future;
use std::ops::Deref;
use std::task::Context;
use std::task::Poll;

use vstd::prelude::*;

verus! {

/// Native async runtimes run tasks on several threads, so what a task holds must be [`Send`]. This
/// trait stands for that requirement, which a runtime with a single thread would not have.
pub trait MaybeSend: Send {

}

impl<T> MaybeSend for T where T: Send {

}

/// This trait abstracts over the requirements for spawning a task. A task might be run in a
/// different thread and might outlive the caller, so its future must be `'static` and
/// [`MaybeSend`].
pub trait Sendable: 'static + MaybeSend {

}

impl<T> Sendable for T where T: 'static + MaybeSend {

}

/// A future that can be polled from within a task.
pub trait MaybeSendFuture: MaybeSend + Future {

}

impl<T> MaybeSendFuture for T where T: MaybeSend + Future {

}

/// A trait to abstract over if a future can be processed in a separate async process.
pub trait SendableFuture: Sendable + Future {

}

impl<T> SendableFuture for T where T: Sendable + Future {

}

/// A trait to abstract over if a stream of items can be managed by the
/// [`Scheduler`](crate::scheduler::Scheduler).
pub trait SendableStream<I>: Sendable {
    /// Attempts to pull out the next item. `None` says that the stream has closed.
    fn poll_next(&mut self, cx: &mut Context<'_>) -> Poll<Option<I>>;
}

/// A trait to abstract over if a fused stream of items can be managed by the
/// [`Scheduler`](crate::scheduler::Scheduler).
pub trait SendableFusedStream<I>: SendableStream<I> {
    /// Returns if the stream has closed and should no longer be polled.
    fn is_terminated(&self) -> bool;
}

/// A transparent wrapper around a value that can be moved into a task.
#[derive(Debug)]
pub struct SendableWrapper<T>(T);

impl<T> SendableWrapper<T> {
    /// The value inside of the wrapper.
    pub closed spec fn inner(self) -> T {
        self.0
    }
}

impl<T> SendableWrapper<T> where T: Sendable {
    /// Constructs a wrapper around the given value.
    pub fn new(inner: T) -> (wrapper: Self)
        ensures
            wrapper.inner() == inner,
    {
        Self(inner)
    }

    /// Removes the inner value from the wrapper.
    pub fn take(self) -> (inner: T)
        ensures
            inner == self.inner(),
    {
        self.0
    }

    /// Borrows the inner value for changing it in place.
    pub fn deref_mut(&mut self) -> (inner: &mut T)
        ensures
            *inner == old(self).inner(),
            final(self).inner() == *final(inner),
    {
        &mut self.0
    }
}

impl<T: Sendable> Deref for SendableWrapper<T> {
    type Target = T;

    fn deref(&self) -> (inner: &T)
        ensures
            *inner == self.inner(),
    {
        &self.0
    }
}

impl<T: Sendable + Clone> Clone for SendableWrapper<T> {
    fn clone(&self) -> (copy: Self)
        ensures
            call_ensures(T::clone, (&self.inner(),), copy.inner()),
    {
        Self(self.0.clone())
    }
}

impl<T, I> SendableStream<I> for SendableWrapper<T> where T: SendableStream<I> {
    fn poll_next(&mut self, cx: &mut Context<'_>) -> (next: Poll<Option<I>>)
        ensures
            exists|inner: &mut T, waker: &mut Context<'_>|
                {
                    &&& #[trigger] call_ensures(T::poll_next, (inner, waker), next)
                    &&& *inner == old(self).inner()
                    &&& *waker == *old(cx)
                    &&& *final(inner) == final(self).inner()
                },
    {
        self.0.poll_next(cx)
    }
}

/// A wrapper is nothing more than the value inside of it: two wrappers are equal exactly if the
/// values inside of them are.
pub proof fn law_wrapper_is_transparent<T>(a: SendableWrapper<T>, b: SendableWrapper<T>)
    ensures
        a == b <==> a.inner() == b.inner(),
{
}

/// What goes into a wrapper is what comes out of it, and what is reached through it is what is in it.
pub proof fn law_wrapper_gives_back<T: Sendable>()
    ensures
        forall|inner: T, wrapper: SendableWrapper<T>, taken: T|
            #[trigger] call_ensures(SendableWrapper::<T>::new, (inner,), wrapper)
                && #[trigger] call_ensures(SendableWrapper::<T>::take, (wrapper,), taken) ==> taken
                == inner,
        forall|wrapper: SendableWrapper<T>, inner: &T| #[trigger]
            call_ensures(<SendableWrapper<T> as Deref>::deref, (&wrapper,), inner) ==> *inner
                == wrapper.inner(),
        forall|wrapper: &mut SendableWrapper<T>, inner: &mut T| #[trigger]
            call_ensures(SendableWrapper::<T>::deref_mut, (wrapper,), inner) ==> {
                &&& *inner == wrapper.inner()
                &&& final(wrapper).inner() == *final(inner)
            },
{
}

/// A wrapper is the value that it holds.
proof fn law_wrapper_is_what_it_holds<T>(wrapper: SendableWrapper<T>)
    ensures
        wrapper.inner() == wrapper.0,
{
}

/// A clone of a wrapper holds a clone of what is in it.
pub proof fn law_wrapper_is_cloned<T: Sendable + Clone>(
    wrapper: SendableWrapper<T>,
    copy: SendableWrapper<T>,
)
    requires
        call_ensures(<SendableWrapper<T> as Clone>::clone, (&wrapper,), copy),
    ensures
        call_ensures(T::clone, (&wrapper.inner(),), copy.inner()),
{
}

/// A poll of a wrapper is one poll of the stream in it, in the context of the caller, and what that
/// leaves behind is kept.
pub proof fn law_wrapper_is_polled<T: SendableStream<I>, I>()
    ensures
        forall|wrapper: &mut SendableWrapper<T>, cx: &mut Context<'_>, next: Poll<Option<I>>|
            #[trigger] call_ensures(
                <SendableWrapper<T> as SendableStream<I>>::poll_next,
                (wrapper, cx),
                next,
            ) ==> exists|inner: &mut T, waker: &mut Context<'_>|
                {
                    &&& #[trigger] call_ensures(T::poll_next, (inner, waker), next)
                    &&& *inner == wrapper.inner()
                    &&& *waker == *cx
                    &&& *final(inner) == final(wrapper).inner()
                },
{
}

} // verus!
