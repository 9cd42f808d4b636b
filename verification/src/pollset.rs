//! The sets of futures and streams that are polled together.

use std::future::Future;
use std::pin::Pin;
use std::task::Context;
use std::task::Poll;

use futures::stream::poll_fn;
use futures::stream::BoxStream;
use futures::stream::Fuse;
use futures::stream::FuturesUnordered;
use futures::stream::SelectAll;
use futures::task::FutureObj;
use futures::FutureExt;
use futures::StreamExt;
use tokio::sync::mpsc::UnboundedReceiver;
use tokio_stream::wrappers::UnboundedReceiverStream;
use vstd::multiset::Multiset;
use vstd::prelude::*;

use crate::compat::Sendable;
use crate::compat::SendableFusedStream;
use crate::compat::SendableFuture;
use crate::scheduler::runs_timer;
use crate::scheduler::Timer;

verus! {

/* ------ Single futures ------ */

/// [`futures::task::FutureObj`], a boxed future.
#[verifier::external_type_specification]
#[verifier::external_body]
#[verifier::reject_recursive_types(T)]
pub struct ExFutureObj<'a, T>(FutureObj<'a, T>);

/// Boxes a future with [`futures::task::FutureObj::new`]. Nothing is claimed of the box.
#[verifier::external_body]
pub(crate) fn boxed<F, T>(fut: F) -> (r: FutureObj<'static, T>) where
    F: SendableFuture + Future<Output = T>,
 {
    FutureObj::new(Box::pin(fut))
}

/// Boxes a future with [`futures::task::FutureObj::new`] after
/// [`futures::FutureExt::map`] made it convert what it yields. Nothing is claimed of the box.
#[verifier::external_body]
pub(crate) fn boxed_into<F, I, M>(fut: F) -> (r: FutureObj<'static, M>) where
    F: SendableFuture + Future<Output = I>,
    I: 'static + Into<M>,
    M: 'static,
 {
    FutureObj::new(Box::pin(fut.map(Into::into)))
}

/// Polls a [`futures::task::FutureObj`] once. A future must not be polled again after it completed,
/// so it is handed over here and comes back only while it waits. When it completes is up to the
/// future, so nothing is claimed.
#[verifier::external_body]
fn poll_boxed(fut: FutureObj<'static, ()>, cx: &mut Context<'_>) -> (left: Option<
    FutureObj<'static, ()>,
>) {
    let mut fut = fut;
    match Pin::new(&mut fut).poll(cx) {
        Poll::Ready(()) => None,
        Poll::Pending => Some(fut),
    }
}

/// If polling the future in this context left `left` of it, which is nothing once it has completed.
pub closed spec fn went_on(
    fut: FutureObj<'static, ()>,
    context: Context<'_>,
    left: Option<FutureObj<'static, ()>>,
) -> bool {
    exists|cx: &mut Context<'_>| #[trigger]
        call_ensures(poll_boxed, (fut, cx), left) && *cx == context
}

/// Polls a future once, and returns what is left of it, which is nothing once it has completed.
pub fn go_on(fut: FutureObj<'static, ()>, cx: &mut Context<'_>) -> (left: Option<
    FutureObj<'static, ()>,
>)
    ensures
        went_on(fut, *old(cx), left),
{
    poll_boxed(fut, cx)
}

/* ------ Futures that yield messages ------ */

/// [`futures::stream::FuturesUnordered`].
#[verifier::external_type_specification]
#[verifier::external_body]
#[verifier::reject_recursive_types(Fut)]
pub struct ExFuturesUnordered<Fut>(FuturesUnordered<Fut>);

/// A [`futures::stream::FuturesUnordered`], and the futures that were put into it and have not
/// completed.
#[verifier::reject_recursive_types(M)]
pub(crate) struct MessageSet<M> {
    futures: FuturesUnordered<FutureObj<'static, M>>,
    tasks: Ghost<Multiset<FutureObj<'static, M>>>,
}

impl<M> MessageSet<M> {
    /// [`futures::stream::FuturesUnordered::new`] makes a set that does not contain any futures.
    #[verifier::external_body]
    fn new() -> (set: Self)
        ensures
            set.tasks@.len() == 0,
    {
        Self { futures: FuturesUnordered::new(), tasks: Ghost(Multiset::empty()) }
    }

    /// [`futures::stream::FuturesUnordered::len`] tells how many futures there are.
    #[verifier::external_body]
    fn len(&self) -> (len: usize)
        ensures
            len == self.tasks@.len(),
    {
        self.futures.len()
    }

    /// [`futures::stream::FuturesUnordered::push`] adds one future to the set and leaves the others
    /// in it.
    #[verifier::external_body]
    fn push(self, fut: FutureObj<'static, M>) -> (set: Self)
        requires
            self.tasks@.len() < usize::MAX,
        ensures
            set.tasks@ == self.tasks@.insert(fut),
    {
        self.futures.push(fut);
        self
    }

    /// Polls the futures of the set once. One that completed leaves the set, and its message is
    /// returned, `None` is returned only by a set without futures, and a set in which no future
    /// completed keeps them all. Which future completes, when, and with which message, is up to the
    /// futures, except that a timer completes with the message that it was set to. The context is
    /// left as it is.
    #[verifier::external_body]
    fn poll(self, cx: &mut Context<'_>) -> (r: (Self, Poll<Option<M>>)) where M: Sendable
        ensures
            *final(cx) == *old(cx),
            match r.1 {
                Poll::Ready(Some(msg)) => exists|task: FutureObj<'static, M>|
                    {
                        &&& #[trigger] self.tasks@.contains(task)
                        &&& r.0.tasks@ == self.tasks@.remove(task)
                        &&& fulfils(task, msg)
                    },
                Poll::Ready(None) => self.tasks@.len() == 0 && r.0.tasks@ == self.tasks@,
                Poll::Pending => r.0.tasks@ == self.tasks@,
            },
    {
        let mut set = self;
        let polled = set.futures.poll_next_unpin(cx);
        (set, polled)
    }
}

/// If the future may complete with this message: one that is a timer completes with the message that
/// it was set to.
pub open spec fn fulfils<M: Sendable>(task: FutureObj<'static, M>, msg: M) -> bool {
    forall|timer: Timer<M>| #[trigger] runs_timer(timer, task) ==> timer.message() == Some(msg)
}

/// Futures that each yield a message and are polled together.
#[verifier::reject_recursive_types(M)]
pub struct MessageQueue<M> {
    /// The futures, once there have been any.
    set: Option<MessageSet<M>>,
}

impl<M> MessageQueue<M> {
    /// The futures that were put in and have not completed.
    pub closed spec fn tasks(self) -> Multiset<FutureObj<'static, M>> {
        match self.set {
            Some(set) => set.tasks@,
            None => Multiset::empty(),
        }
    }

    /// The number of futures.
    pub open spec fn count(self) -> nat {
        self.tasks().len()
    }

    /// The set that a future is put into, which is a new one if there has been none.
    spec fn opens(self, set: MessageSet<M>) -> bool {
        match self.set {
            Some(own) => own == set,
            None => call_ensures(MessageSet::<M>::new, (), set),
        }
    }

    /// If putting a future in is what made `after` out of this.
    pub closed spec fn gained(self, task: FutureObj<'static, M>, after: Self) -> bool {
        exists|set: MessageSet<M>, grown: MessageSet<M>|
            {
                &&& self.opens(set)
                &&& #[trigger] call_ensures(MessageSet::<M>::push, (set, task), grown)
                &&& after.set == Some(grown)
            }
    }

    /// If a poll in this context came back with `r` and left `after` behind.
    pub closed spec fn told(self, context: Context<'_>, r: Poll<Option<M>>, after: Self) -> bool where M: Sendable {
        match self.set {
            Some(set) => exists|cx: &mut Context<'_>, rest: MessageSet<M>|
                {
                    &&& #[trigger] call_ensures(MessageSet::<M>::poll, (set, cx), (rest, r))
                    &&& *cx == context
                    &&& after.set == Some(rest)
                },
            None => r == Poll::Ready(None::<M>) && after == self,
        }
    }

    /// If a poll came back with `r` and left `after` behind.
    pub open spec fn said(self, r: Poll<Option<M>>, after: Self) -> bool where M: Sendable {
        exists|context: Context<'_>| #[trigger] self.told(context, r, after)
    }

    /// If this was left as it is, or if a poll came back with nothing and left `after` behind.
    pub open spec fn rests(self, after: Self) -> bool where M: Sendable {
        after == self || self.said(Poll::Pending, after)
    }

    /// There are no futures at first.
    pub fn new() -> (queue: Self)
        ensures
            queue.tasks().len() == 0,
    {
        Self { set: None }
    }

    /// Returns the number of futures.
    pub fn len(&self) -> (len: usize)
        ensures
            len == self.count(),
    {
        match &self.set {
            Some(set) => set.len(),
            None => 0,
        }
    }

    /// Puts a future in.
    pub fn push(&mut self, task: FutureObj<'static, M>)
        requires
            old(self).count() < usize::MAX,
        ensures
            final(self).tasks() == old(self).tasks().insert(task),
            old(self).gained(task, *final(self)),
    {
        let set = match self.set.take() {
            Some(set) => set,
            None => MessageSet::new(),
        };
        self.set = Some(set.push(task));
    }

    /// Polls the futures once. One that completed leaves, and its message is returned. `None` is
    /// returned if there are no futures.
    pub fn poll(&mut self, cx: &mut Context<'_>) -> (r: Poll<Option<M>>) where M: Sendable
        ensures
            match r {
                Poll::Ready(Some(msg)) => exists|task: FutureObj<'static, M>|
                    {
                        &&& #[trigger] old(self).tasks().contains(task)
                        &&& final(self).tasks() == old(self).tasks().remove(task)
                        &&& fulfils(task, msg)
                    },
                Poll::Ready(None) => {
                    &&& old(self).tasks().len() == 0
                    &&& final(self).tasks() == old(self).tasks()
                },
                Poll::Pending => final(self).tasks() == old(self).tasks(),
            },
            old(self).told(*old(cx), r, *final(self)),
            *final(cx) == *old(cx),
    {
        match self.set.take() {
            Some(set) => {
                let (rest, r) = set.poll(cx);
                self.set = Some(rest);
                let ghost said = r;
                proof {
                    if let Poll::Ready(Some(msg)) = said {
                        let task = choose|task: FutureObj<'static, M>|
                            {
                                &&& #[trigger] set.tasks@.contains(task)
                                &&& rest.tasks@ == set.tasks@.remove(task)
                                &&& fulfils(task, msg)
                            };
                        assert(old(self).tasks().contains(task));
                    }
                }
                r
            },
            None => Poll::Ready(None),
        }
    }
}

/* ------ Futures that yield nothing of interest ------ */

/// A set of futures that each yield the number that they were put in with.
pub type TaskSet = FuturesUnordered<FutureObj<'static, usize>>;

/// The numbers that the futures in the set are going to yield.
pub uninterp spec fn pending(tasks: TaskSet) -> Multiset<usize>;

/// [`futures::stream::FuturesUnordered::new`] makes a set that does not contain any futures.
#[verifier::external_body]
fn new_tasks() -> (tasks: TaskSet)
    ensures
        pending(tasks) == Multiset::<usize>::empty(),
{
    FuturesUnordered::new()
}

/// [`futures::stream::FuturesUnordered::push`] adds one future to the set and leaves the others in
/// it. [`futures::FutureExt::map`] drops what the future yields for the given number.
#[verifier::external_body]
fn push_task<F, T>(tasks: TaskSet, fut: F, number: usize) -> (grown: TaskSet) where
    F: SendableFuture + Future<Output = T>,
    T: Sendable,

    ensures
        pending(grown) == pending(tasks).insert(number),
{
    tasks.push(FutureObj::new(Box::pin(fut.map(move |_| number))));
    tasks
}

/// [`futures::stream::FuturesUnordered::is_empty`] tells if the set contains no futures.
#[verifier::external_body]
fn no_tasks(tasks: &TaskSet) -> (empty: bool)
    ensures
        empty <==> pending(*tasks).len() == 0,
{
    tasks.is_empty()
}

/// Polls the futures of a set once. A future that completed leaves the set and its number is
/// returned, `None` is returned only by a set without futures, and a set in which no future
/// completed keeps them all. Which future completes, and when, is up to the futures. The context is
/// left as it is.
#[verifier::external_body]
fn poll_tasks(tasks: TaskSet, cx: &mut Context<'_>) -> (r: (TaskSet, Poll<Option<usize>>))
    ensures
        *final(cx) == *old(cx),
        match r.1 {
            Poll::Ready(Some(number)) => {
                &&& pending(tasks).contains(number)
                &&& pending(r.0) == pending(tasks).remove(number)
            },
            Poll::Ready(None) => {
                &&& pending(tasks).len() == 0
                &&& pending(r.0) == pending(tasks)
            },
            Poll::Pending => pending(r.0) == pending(tasks),
        },
{
    let mut tasks = tasks;
    let polled = tasks.poll_next_unpin(cx);
    (tasks, polled)
}

/// Numbered futures that are polled together. What they yield is dropped.
pub struct Tasks {
    /// The futures, once there have been any.
    set: Option<TaskSet>,
}

impl Tasks {
    /// The numbers of the futures.
    pub closed spec fn numbers(self) -> Multiset<usize> {
        match self.set {
            Some(set) => pending(set),
            None => Multiset::empty(),
        }
    }

    /// The set that a future is put into, which is a new one if there has been none.
    spec fn opens(self, set: TaskSet) -> bool {
        match self.set {
            Some(own) => own == set,
            None => call_ensures(new_tasks, (), set),
        }
    }

    /// If putting a future in under this number is what made `after` out of this.
    pub closed spec fn gained<F, T>(self, fut: F, number: usize, after: Self) -> bool where
        F: SendableFuture + Future<Output = T>,
        T: Sendable,
     {
        exists|set: TaskSet, grown: TaskSet|
            {
                &&& self.opens(set)
                &&& #[trigger] call_ensures(push_task::<F, T>, (set, fut, number), grown)
                &&& after.set == Some(grown)
            }
    }

    /// If a poll in this context came back with `r` and left `after` behind.
    pub closed spec fn told(self, context: Context<'_>, r: Poll<Option<usize>>, after: Self) -> bool {
        match self.set {
            Some(set) => exists|cx: &mut Context<'_>, rest: TaskSet|
                {
                    &&& #[trigger] call_ensures(poll_tasks, (set, cx), (rest, r))
                    &&& *cx == context
                    &&& after.set == Some(rest)
                },
            None => r == Poll::Ready(None::<usize>) && after == self,
        }
    }

    /// If a poll came back with `r` and left `after` behind.
    pub open spec fn said(self, r: Poll<Option<usize>>, after: Self) -> bool {
        exists|context: Context<'_>| #[trigger] self.told(context, r, after)
    }

    /// If this was left as it is, or if a poll came back with nothing and left `after` behind.
    pub open spec fn rests(self, after: Self) -> bool {
        after == self || self.said(Poll::Pending, after)
    }

    /// If a poll came back with the number of a future that completed, and left `after` behind.
    pub open spec fn finishes_one(self, after: Self) -> bool {
        exists|number: usize| #[trigger] self.said(Poll::Ready(Some(number)), after)
    }

    /// If polls came back with the number of a future that completed, one after the other, with the
    /// futures as in `trail` before, between and after them.
    pub open spec fn finishes_some(trail: Seq<Self>) -> bool {
        forall|i: int| 0 <= i < trail.len() - 1 ==> (#[trigger] trail[i]).finishes_one(trail[i + 1])
    }

    /// There are no futures at first.
    pub fn new() -> (tasks: Self)
        ensures
            tasks.numbers() == Multiset::<usize>::empty(),
    {
        Self { set: None }
    }

    /// Returns if there are no futures.
    pub fn is_empty(&self) -> (empty: bool)
        ensures
            empty <==> self.numbers().len() == 0,
    {
        match &self.set {
            Some(set) => no_tasks(set),
            None => true,
        }
    }

    /// Puts a future in under this number.
    pub fn push<F, T>(&mut self, fut: F, number: usize) where
        F: SendableFuture + Future<Output = T>,
        T: Sendable,

        ensures
            final(self).numbers() == old(self).numbers().insert(number),
            old(self).gained::<F, T>(fut, number, *final(self)),
    {
        let set = match self.set.take() {
            Some(set) => set,
            None => new_tasks(),
        };
        self.set = Some(push_task(set, fut, number));
    }

    /// Polls the futures once. One that completed leaves, and its number is returned. `None` is
    /// returned if there are no futures.
    pub fn poll(&mut self, cx: &mut Context<'_>) -> (r: Poll<Option<usize>>)
        ensures
            match r {
                Poll::Ready(Some(number)) => {
                    &&& old(self).numbers().contains(number)
                    &&& final(self).numbers() == old(self).numbers().remove(number)
                },
                Poll::Ready(None) => {
                    &&& old(self).numbers().len() == 0
                    &&& final(self).numbers() == old(self).numbers()
                },
                Poll::Pending => final(self).numbers() == old(self).numbers(),
            },
            old(self).told(*old(cx), r, *final(self)),
            *final(cx) == *old(cx),
    {
        match self.set.take() {
            Some(set) => {
                let (rest, r) = poll_tasks(set, cx);
                self.set = Some(rest);
                r
            },
            None => Poll::Ready(None),
        }
    }
}

/* ------ Streams ------ */

/// A stream that is polled until it yields its first `None`, and never again after that.
pub struct Source<S> {
    /// The stream, until it has closed.
    stream: Option<S>,
}

impl<S> Source<S> {
    /// The stream, until it has closed.
    pub closed spec fn stream(self) -> Option<S> {
        self.stream
    }

    /// If a poll can come back with `next` and leave `after` behind: a stream that is there is gone
    /// exactly if it closed, and one that is gone stays so.
    pub open spec fn follows<I>(self, next: Poll<Option<I>>, after: Self) -> bool {
        &&& after.stream() is None <==> next == Poll::Ready(None::<I>)
        &&& self.stream() is None ==> after.stream() is None
    }

    /// Makes a source out of a stream.
    pub fn new(stream: S) -> (source: Self)
        ensures
            source.stream() == Some(stream),
    {
        Self { stream: Some(stream) }
    }

    /// Polls the stream, unless it has closed. A stream that closes is dropped on the spot.
    pub fn poll_next<I>(&mut self, cx: &mut Context<'_>) -> (next: Poll<Option<I>>) where
        S: SendableFusedStream<I>,

        ensures
            old(self).follows(next, *final(self)),
            match old(self).stream() {
                Some(stream) => exists|polled: &mut S, waker: &mut Context<'_>|
                    {
                        &&& #[trigger] call_ensures(S::poll_next, (polled, waker), next)
                        &&& *polled == stream
                        &&& *waker == *old(cx)
                        &&& final(self).stream() == (if next matches Poll::Ready(None) {
                            None
                        } else {
                            Some(*final(polled))
                        })
                    },
                None => {
                    &&& next matches Poll::Ready(None)
                    &&& final(self).stream() is None
                },
            },
    {
        match self.stream.take() {
            Some(mut stream) => {
                let next = stream.poll_next(cx);
                if let Poll::Ready(None) = next {
                } else {
                    self.stream = Some(stream);
                }
                next
            },
            None => Poll::Ready(None),
        }
    }
}

/// A [`futures::stream::SelectAll`]. The streams in it are of different types and each is boxed.
#[verifier::external_body]
#[verifier::reject_recursive_types(M)]
struct Streams<M> {
    set: SelectAll<Fuse<BoxStream<'static, M>>>,
}

/// A [`futures::stream::SelectAll`] together with what its `len` was when it last changed.
#[verifier::reject_recursive_types(M)]
pub(crate) struct StreamSet<M> {
    streams: Streams<M>,
    len: usize,
}

impl<M> StreamSet<M> {
    /// [`futures::stream::SelectAll::new`] makes a set that does not contain any streams.
    #[verifier::external_body]
    fn new() -> (set: Self)
        ensures
            set.len == 0,
    {
        let set = SelectAll::new();
        let len = set.len();
        Self { streams: Streams { set }, len }
    }

    /// [`futures::stream::SelectAll::push`] adds one stream to the set and leaves the others in it,
    /// as [`futures::stream::SelectAll::len`] tells. [`futures::stream::poll_fn`] makes the stream
    /// out of the given one, [`futures::StreamExt::map`] converts its items, and
    /// [`futures::StreamExt::fuse`] keeps it closed once it is. What the streams yield is opaque
    /// here.
    #[verifier::external_body]
    fn push<S, I>(self, source: Source<S>) -> (grown: Self) where
        S: SendableFusedStream<I>,
        I: 'static + Into<M>,
        M: 'static,

        ensures
            self.len < usize::MAX ==> grown.len == self.len + 1,
    {
        let mut set = self.streams.set;
        let mut source = source;
        set.push(poll_fn(move |cx| source.poll_next(cx)).map(Into::into).boxed().fuse());
        let len = set.len();
        Self { streams: Streams { set }, len }
    }

    /// [`futures::stream::SelectAll::push`] adds the receiving half of a channel to the set, as a
    /// [`tokio_stream::wrappers::UnboundedReceiverStream`], and leaves the streams in it, as
    /// [`futures::stream::SelectAll::len`] tells.
    #[verifier::external_body]
    fn push_receiver(self, receiver: UnboundedReceiver<M>) -> (grown: Self) where M: Sendable
        ensures
            self.len < usize::MAX ==> grown.len == self.len + 1,
    {
        let mut set = self.streams.set;
        set.push(UnboundedReceiverStream::new(receiver).boxed().fuse());
        let len = set.len();
        Self { streams: Streams { set }, len }
    }

    /// [`Extend`] of [`futures::stream::SelectAll`] puts every stream of the other set into this
    /// one, as [`futures::stream::SelectAll::len`] tells.
    #[verifier::external_body]
    fn extend(self, other: Self) -> (grown: Self)
        ensures
            self.len + other.len <= usize::MAX ==> grown.len == self.len + other.len,
    {
        let mut set = self.streams.set;
        set.extend(other.streams.set);
        let len = set.len();
        Self { streams: Streams { set }, len }
    }

    /// Polls the streams once. A stream that has closed leaves the set, and one that yields an item
    /// stays in it. `None` is returned only if no stream is left, as
    /// [`futures::stream::SelectAll::len`] tells. Which stream yields what, and when, is up to the
    /// streams. That nothing came does not say that a stream is left: the set also answers so while
    /// another thread is in the middle of a wake-up, and then asks to be polled again. The context is
    /// left as it is.
    #[verifier::external_body]
    fn poll(self, cx: &mut Context<'_>) -> (r: (Self, Poll<Option<M>>))
        ensures
            *final(cx) == *old(cx),
            match r.1 {
                Poll::Ready(Some(_)) => 0 < r.0.len <= self.len,
                Poll::Ready(None) => r.0.len == 0,
                Poll::Pending => r.0.len <= self.len,
            },
    {
        let mut set = self.streams.set;
        let polled = set.poll_next_unpin(cx);
        let len = set.len();
        (Self { streams: Streams { set }, len }, polled)
    }
}

/// The streams that messages arrive on, polled together.
#[verifier::reject_recursive_types(M)]
pub struct Inbound<M> {
    /// The streams, once there have been any.
    set: Option<StreamSet<M>>,
}

impl<M> Inbound<M> {
    /// The number of streams that are left, which are those that have not been found closed.
    pub closed spec fn count(self) -> nat {
        match self.set {
            Some(set) => set.len as nat,
            None => 0,
        }
    }

    /// The set that a stream is put into, which is a new one if there has been none.
    spec fn opens(self, set: StreamSet<M>) -> bool {
        match self.set {
            Some(own) => own == set,
            None => call_ensures(StreamSet::<M>::new, (), set),
        }
    }

    /// If putting the stream in, with its items converted into messages, is what made `after` out
    /// of this.
    pub closed spec fn gained<S, I>(self, stream: S, after: Self) -> bool where
        S: SendableFusedStream<I>,
        I: 'static + Into<M>,
        M: 'static,
     {
        exists|set: StreamSet<M>, source: Source<S>, grown: StreamSet<M>|
            {
                &&& self.opens(set)
                &&& source.stream() == Some(stream)
                &&& #[trigger] call_ensures(StreamSet::<M>::push::<S, I>, (set, source), grown)
                &&& after.set == Some(grown)
            }
    }

    /// If putting the receiving half of a channel in is what made `after` out of this.
    pub closed spec fn gained_receiver(self, receiver: UnboundedReceiver<M>, after: Self) -> bool where
        M: Sendable,
     {
        exists|set: StreamSet<M>, grown: StreamSet<M>|
            {
                &&& self.opens(set)
                &&& #[trigger] call_ensures(StreamSet::<M>::push_receiver, (set, receiver), grown)
                &&& after.set == Some(grown)
            }
    }

    /// If putting the other streams in is what made `after` out of this.
    pub closed spec fn absorbed(self, other: Self, after: Self) -> bool {
        match other.set {
            Some(others) => exists|set: StreamSet<M>, grown: StreamSet<M>|
                {
                    &&& self.opens(set)
                    &&& #[trigger] call_ensures(StreamSet::<M>::extend, (set, others), grown)
                    &&& after.set == Some(grown)
                },
            None => after == self,
        }
    }

    /// If a poll in this context came back with `r` and left `after` behind.
    pub closed spec fn told(self, context: Context<'_>, r: Poll<Option<M>>, after: Self) -> bool {
        match self.set {
            Some(set) => exists|cx: &mut Context<'_>, rest: StreamSet<M>|
                {
                    &&& #[trigger] call_ensures(StreamSet::<M>::poll, (set, cx), (rest, r))
                    &&& *cx == context
                    &&& after.set == Some(rest)
                },
            None => r == Poll::Ready(None::<M>) && after == self,
        }
    }

    /// If a poll came back with `r` and left `after` behind.
    pub open spec fn said(self, r: Poll<Option<M>>, after: Self) -> bool {
        exists|context: Context<'_>| #[trigger] self.told(context, r, after)
    }

    /// If this was left as it is, or if a poll came back with nothing and left `after` behind.
    pub open spec fn rests(self, after: Self) -> bool {
        after == self || self.said(Poll::Pending, after)
    }

    /// There are no streams at first.
    pub fn new() -> (inbound: Self)
        ensures
            inbound.count() == 0,
    {
        Self { set: None }
    }

    /// Returns the set that a stream is put into.
    fn open(&mut self) -> (set: StreamSet<M>)
        ensures
            old(self).opens(set),
            set.len == old(self).count(),
    {
        match self.set.take() {
            Some(set) => set,
            None => StreamSet::new(),
        }
    }

    /// Puts a stream in.
    pub fn push<S, I>(&mut self, stream: S) where
        S: SendableFusedStream<I>,
        I: 'static + Into<M>,
        M: 'static,

        ensures
            old(self).gained::<S, I>(stream, *final(self)),
            old(self).count() < usize::MAX ==> final(self).count() == old(self).count() + 1,
    {
        let set = self.open();
        self.set = Some(set.push(Source::new(stream)));
    }

    /// Puts the receiving half of a channel in.
    pub fn push_receiver(&mut self, receiver: UnboundedReceiver<M>) where M: Sendable
        ensures
            old(self).gained_receiver(receiver, *final(self)),
            old(self).count() < usize::MAX ==> final(self).count() == old(self).count() + 1,
    {
        let set = self.open();
        self.set = Some(set.push_receiver(receiver));
    }

    /// Puts the streams of another set in.
    pub fn absorb(&mut self, other: Self)
        ensures
            old(self).absorbed(other, *final(self)),
            old(self).count() + other.count() <= usize::MAX ==> final(self).count() == old(self).count() + other.count(),
    {
        if let Some(others) = other.set {
            let set = self.open();
            self.set = Some(set.extend(others));
        }
    }

    /// Polls the streams once. `None` is returned if there are none.
    pub fn poll(&mut self, cx: &mut Context<'_>) -> (r: Poll<Option<M>>)
        ensures
            old(self).told(*old(cx), r, *final(self)),
            *final(cx) == *old(cx),
            match r {
                Poll::Ready(Some(_)) => 0 < final(self).count() <= old(self).count(),
                Poll::Ready(None) => final(self).count() == 0,
                Poll::Pending => final(self).count() <= old(self).count(),
            },
    {
        match self.set.take() {
            Some(set) => {
                let (rest, r) = set.poll(cx);
                self.set = Some(rest);
                r
            },
            None => Poll::Ready(None),
        }
    }
}

/// What a poll does to the number of streams that are left: it does not grow, `None` says that there
/// are none, and an item that there is the one that yielded it.
pub proof fn lemma_streams_left<M>(before: Inbound<M>, r: Poll<Option<M>>, after: Inbound<M>)
    requires
        before.said(r, after),
    ensures
        after.count() <= before.count(),
        match r {
            Poll::Ready(Some(_)) => after.count() > 0,
            Poll::Ready(None) => after.count() == 0,
            Poll::Pending => true,
        },
{
}

/// What a poll does to the futures: the one that yielded the message leaves.
pub proof fn lemma_futures_left<M: Sendable>(
    before: MessageQueue<M>,
    r: Poll<Option<M>>,
    after: MessageQueue<M>,
)
    requires
        before.said(r, after),
    ensures
        match r {
            Poll::Ready(Some(msg)) => {
                &&& before.count() == after.count() + 1
                &&& exists|task: FutureObj<'static, M>|
                    {
                        &&& #[trigger] before.tasks().contains(task)
                        &&& after.tasks() == before.tasks().remove(task)
                        &&& fulfils(task, msg)
                    }
            },
            Poll::Ready(None) => before.count() == 0 && after.tasks() == before.tasks(),
            Poll::Pending => after.tasks() == before.tasks(),
        },
{
}

/// What a poll does to the number of managed futures: the one that completed leaves.
pub proof fn lemma_tasks_left(before: Tasks, r: Poll<Option<usize>>, after: Tasks)
    requires
        before.said(r, after),
    ensures
        match r {
            Poll::Ready(Some(_)) => before.numbers().len() == after.numbers().len() + 1,
            Poll::Ready(None) => before.numbers().len() == 0 && after.numbers().len() == 0,
            Poll::Pending => after.numbers().len() == before.numbers().len(),
        },
{
}

/* ------ What is behind the words ------ */

/// However many futures are queued, polling them polls the set that holds them, once and in the given
/// context: the answer is the answer of the set, and what the set leaves behind is what is kept.
/// There is no answer without that, except that there are none where there have never been any.
proof fn law_queued_futures_are_polled<M: Sendable>(
    before: MessageQueue<M>,
    context: Context<'_>,
    r: Poll<Option<M>>,
    after: MessageQueue<M>,
)
    requires
        before.told(context, r, after),
    ensures
        before.count() > 0 || r is Pending || (r matches Poll::Ready(Some(_))) ==> exists|
            cx: &mut Context<'_>,
            held: MessageSet<M>,
            rest: MessageSet<M>,
        |
            {
                &&& #[trigger] call_ensures(MessageSet::<M>::poll, (held, cx), (rest, r))
                &&& *cx == context
                &&& before.set == Some(held)
                &&& before.tasks() == held.tasks@
                &&& after.set == Some(rest)
                &&& after.tasks() == rest.tasks@
            },
        before.set matches Some(held) ==> exists|cx: &mut Context<'_>, rest: MessageSet<M>|
            {
                &&& #[trigger] call_ensures(MessageSet::<M>::poll, (held, cx), (rest, r))
                &&& *cx == context
                &&& after.set == Some(rest)
            },
        before.set is None ==> r == Poll::Ready(None::<M>) && after.set is None,
{
}

/// Queueing a future puts that very future into the set that holds the others, and what the set
/// becomes is what is kept.
proof fn law_queued_future_is_put_in<M>(
    before: MessageQueue<M>,
    task: FutureObj<'static, M>,
    after: MessageQueue<M>,
)
    requires
        before.gained(task, after),
    ensures
        after.set matches Some(grown) && after.tasks() == grown.tasks@,
        exists|held: MessageSet<M>|
            {
                &&& #[trigger] call_ensures(MessageSet::<M>::push, (held, task), after.set->0)
                &&& match before.set {
                    Some(own) => held == own && before.tasks() == held.tasks@,
                    None => call_ensures(MessageSet::<M>::new, (), held),
                }
            },
{
    let (set, grown) = choose|set: MessageSet<M>, grown: MessageSet<M>|
        {
            &&& before.opens(set)
            &&& #[trigger] call_ensures(MessageSet::<M>::push, (set, task), grown)
            &&& after.set == Some(grown)
        };
    assert(call_ensures(MessageSet::<M>::push, (set, task), after.set->0));
}

/// However many futures are managed, polling them polls the set that holds them, once and in the
/// given context: the answer is the answer of the set, and what the set leaves behind is what is kept.
proof fn law_managed_futures_are_polled(
    before: Tasks,
    context: Context<'_>,
    r: Poll<Option<usize>>,
    after: Tasks,
)
    requires
        before.told(context, r, after),
    ensures
        before.numbers().len() > 0 || r is Pending || (r matches Poll::Ready(Some(_))) ==> exists|
            cx: &mut Context<'_>,
            held: TaskSet,
            rest: TaskSet,
        |
            {
                &&& #[trigger] call_ensures(poll_tasks, (held, cx), (rest, r))
                &&& *cx == context
                &&& before.set == Some(held)
                &&& before.numbers() == pending(held)
                &&& after.set == Some(rest)
                &&& after.numbers() == pending(rest)
            },
        before.set matches Some(held) ==> exists|cx: &mut Context<'_>, rest: TaskSet|
            {
                &&& #[trigger] call_ensures(poll_tasks, (held, cx), (rest, r))
                &&& *cx == context
                &&& after.set == Some(rest)
            },
        before.set is None ==> r == Poll::Ready(None::<usize>) && after.set is None,
{
}

/// Managing a future puts that very future, under its number, into the set that holds the others, and
/// what the set becomes is what is kept.
proof fn law_managed_future_is_put_in<F, T>(before: Tasks, fut: F, number: usize, after: Tasks) where
    F: SendableFuture + Future<Output = T>,
    T: Sendable,

    requires
        before.gained::<F, T>(fut, number, after),
    ensures
        after.set matches Some(grown) && after.numbers() == pending(grown),
        after.numbers() == before.numbers().insert(number),
        exists|held: TaskSet|
            {
                &&& #[trigger] call_ensures(push_task::<F, T>, (held, fut, number), after.set->0)
                &&& match before.set {
                    Some(own) => held == own && before.numbers() == pending(held),
                    None => call_ensures(new_tasks, (), held),
                }
            },
{
    let (set, grown) = choose|set: TaskSet, grown: TaskSet|
        {
            &&& before.opens(set)
            &&& #[trigger] call_ensures(push_task::<F, T>, (set, fut, number), grown)
            &&& after.set == Some(grown)
        };
    assert(call_ensures(push_task::<F, T>, (set, fut, number), after.set->0));
}

/// However many streams are attached, polling them polls the set that holds them, once and in the
/// given context: the answer is the answer of the set, and all of what the set leaves behind is kept,
/// as many streams as the set then has. A stream leaves only where the set drops it.
proof fn law_streams_are_polled_and_kept<M>(
    before: Inbound<M>,
    context: Context<'_>,
    r: Poll<Option<M>>,
    after: Inbound<M>,
)
    requires
        before.told(context, r, after),
    ensures
        before.count() > 0 || r is Pending || (r matches Poll::Ready(Some(_))) ==> exists|
            cx: &mut Context<'_>,
            held: StreamSet<M>,
            rest: StreamSet<M>,
        |
            {
                &&& #[trigger] call_ensures(StreamSet::<M>::poll, (held, cx), (rest, r))
                &&& *cx == context
                &&& before.set == Some(held)
                &&& before.count() == held.len
                &&& after.set == Some(rest)
                &&& after.count() == rest.len
            },
        before.set matches Some(held) ==> exists|cx: &mut Context<'_>, rest: StreamSet<M>|
            {
                &&& #[trigger] call_ensures(StreamSet::<M>::poll, (held, cx), (rest, r))
                &&& *cx == context
                &&& after.set == Some(rest)
            },
        before.set is None ==> r == Poll::Ready(None::<M>) && after.set is None,
{
}

/// Attaching a stream puts that very stream into the set that holds the others, and what the set
/// becomes is what is kept, as many streams as it then has.
proof fn law_attached_stream_is_put_in<M, S, I>(
    before: Inbound<M>,
    stream: S,
    after: Inbound<M>,
) where S: SendableFusedStream<I>, I: 'static + Into<M>, M: 'static
    requires
        before.gained::<S, I>(stream, after),
    ensures
        after.set matches Some(grown) && after.count() == grown.len,
        exists|held: StreamSet<M>, source: Source<S>|
            {
                &&& #[trigger] call_ensures(
                    StreamSet::<M>::push::<S, I>,
                    (held, source),
                    after.set->0,
                )
                &&& source.stream == Some(stream)
                &&& match before.set {
                    Some(own) => held == own && before.count() == held.len,
                    None => call_ensures(StreamSet::<M>::new, (), held),
                }
            },
{
    let (set, source, grown) = choose|set: StreamSet<M>, source: Source<S>, grown: StreamSet<M>|
        {
            &&& before.opens(set)
            &&& source.stream() == Some(stream)
            &&& #[trigger] call_ensures(StreamSet::<M>::push::<S, I>, (set, source), grown)
            &&& after.set == Some(grown)
        };
    assert(call_ensures(StreamSet::<M>::push::<S, I>, (set, source), after.set->0));
}

/// Attaching the receiving half of a channel puts that very half into the set that holds the streams,
/// and what the set becomes is what is kept, as many streams as it then has.
proof fn law_attached_receiver_is_put_in<M: Sendable>(
    before: Inbound<M>,
    receiver: UnboundedReceiver<M>,
    after: Inbound<M>,
)
    requires
        before.gained_receiver(receiver, after),
    ensures
        after.set matches Some(grown) && after.count() == grown.len,
        exists|held: StreamSet<M>|
            {
                &&& #[trigger] call_ensures(
                    StreamSet::<M>::push_receiver,
                    (held, receiver),
                    after.set->0,
                )
                &&& match before.set {
                    Some(own) => held == own && before.count() == held.len,
                    None => call_ensures(StreamSet::<M>::new, (), held),
                }
            },
{
    let (set, grown) = choose|set: StreamSet<M>, grown: StreamSet<M>|
        {
            &&& before.opens(set)
            &&& #[trigger] call_ensures(StreamSet::<M>::push_receiver, (set, receiver), grown)
            &&& after.set == Some(grown)
        };
    assert(call_ensures(StreamSet::<M>::push_receiver, (set, receiver), after.set->0));
}

/// Absorbing a set of streams puts all of it into the set that holds the others. Where there is
/// nothing to absorb, nothing changes.
proof fn law_absorbed_streams_are_put_in<M>(before: Inbound<M>, other: Inbound<M>, after: Inbound<M>)
    requires
        before.absorbed(other, after),
    ensures
        other.set is None ==> after.set == before.set,
        other.set matches Some(others) ==> {
            &&& after.set matches Some(grown) && after.count() == grown.len
            &&& exists|held: StreamSet<M>|
                {
                    &&& #[trigger] call_ensures(
                        StreamSet::<M>::extend,
                        (held, others),
                        after.set->0,
                    )
                    &&& match before.set {
                        Some(own) => held == own && before.count() == held.len,
                        None => call_ensures(StreamSet::<M>::new, (), held),
                    }
                }
        },
{
    if let Some(others) = other.set {
        let (set, grown) = choose|set: StreamSet<M>, grown: StreamSet<M>|
            {
                &&& before.opens(set)
                &&& #[trigger] call_ensures(StreamSet::<M>::extend, (set, others), grown)
                &&& after.set == Some(grown)
            };
        assert(call_ensures(StreamSet::<M>::extend, (set, others), after.set->0));
    }
}

/// Going on with a future polls that very future, once and in the given context.
proof fn law_going_on_polls_the_future(
    fut: FutureObj<'static, ()>,
    context: Context<'_>,
    left: Option<FutureObj<'static, ()>>,
)
    requires
        went_on(fut, context, left),
    ensures
        exists|cx: &mut Context<'_>| #[trigger]
            call_ensures(poll_boxed, (fut, cx), left) && *cx == context,
{
}

/// A timer completes with the message that it was set to, whatever else is queued with it.
proof fn law_timer_yields_its_message<M: Sendable>(
    task: FutureObj<'static, M>,
    timer: Timer<M>,
    msg: M,
)
    requires
        fulfils(task, msg),
        runs_timer(timer, task),
    ensures
        timer.message() == Some(msg),
{
}

/// A source holds the stream that it is made of until the first `None`, and is empty from then on.
proof fn law_source_holds_its_stream<S, I>(before: Source<S>, next: Poll<Option<I>>, after: Source<S>)
    requires
        before.follows(next, after),
    ensures
        before.stream == before.stream(),
        (next matches Poll::Ready(None)) <==> after.stream is None,
        before.stream is None ==> next matches Poll::Ready(None),
{
}

/// Whatever a poll of queued futures, managed futures or streams comes back with, and however many
/// there are, that is what they told in the context of the caller. The numbers follow: a queued or a
/// managed future that completed leaves, and it alone, and streams only become fewer.
pub proof fn law_sources_are_polled<M: Sendable>()
    ensures
        forall|queue: &mut MessageQueue<M>, cx: &mut Context<'_>, r: Poll<Option<M>>| #[trigger]
            call_ensures(MessageQueue::<M>::poll, (queue, cx), r) ==> {
                &&& queue.told(*cx, r, *final(queue))
                &&& *final(cx) == *cx
                &&& match r {
                    Poll::Ready(Some(_)) => queue.count() == final(queue).count() + 1,
                    Poll::Ready(None) => queue.count() == 0 && final(queue).count() == 0,
                    Poll::Pending => final(queue).tasks() == queue.tasks(),
                }
            },
        forall|tasks: &mut Tasks, cx: &mut Context<'_>, r: Poll<Option<usize>>| #[trigger]
            call_ensures(Tasks::poll, (tasks, cx), r) ==> {
                &&& tasks.told(*cx, r, *final(tasks))
                &&& *final(cx) == *cx
                &&& match r {
                    Poll::Ready(Some(number)) => {
                        &&& tasks.numbers().contains(number)
                        &&& final(tasks).numbers() == tasks.numbers().remove(number)
                    },
                    Poll::Ready(None) => {
                        &&& tasks.numbers().len() == 0
                        &&& final(tasks).numbers().len() == 0
                    },
                    Poll::Pending => final(tasks).numbers() == tasks.numbers(),
                }
            },
        forall|inbound: &mut Inbound<M>, cx: &mut Context<'_>, r: Poll<Option<M>>| #[trigger]
            call_ensures(Inbound::<M>::poll, (inbound, cx), r) ==> {
                &&& inbound.told(*cx, r, *final(inbound))
                &&& *final(cx) == *cx
                &&& final(inbound).count() <= inbound.count()
                &&& r matches Poll::Ready(Some(_)) ==> final(inbound).count() > 0
                &&& r == Poll::Ready(None::<M>) ==> final(inbound).count() == 0
            },
{
}

/// What is put in is there from then on, next to what was there before.
pub proof fn law_sources_are_put_in<M: Sendable, S, I, F, T>() where
    S: SendableFusedStream<I>,
    I: 'static + Into<M>,
    F: SendableFuture + Future<Output = T>,
    T: Sendable,

    ensures
        forall|queue: &mut MessageQueue<M>, task: FutureObj<'static, M>| #[trigger]
            call_ensures(MessageQueue::<M>::push, (queue, task), ()) ==> {
                &&& queue.gained(task, *final(queue))
                &&& final(queue).tasks() == queue.tasks().insert(task)
            },
        forall|tasks: &mut Tasks, fut: F, number: usize| #[trigger]
            call_ensures(Tasks::push::<F, T>, (tasks, fut, number), ()) ==> {
                &&& tasks.gained::<F, T>(fut, number, *final(tasks))
                &&& final(tasks).numbers() == tasks.numbers().insert(number)
            },
        forall|inbound: &mut Inbound<M>, stream: S| #[trigger]
            call_ensures(Inbound::<M>::push::<S, I>, (inbound, stream), ()) ==> {
                &&& inbound.gained::<S, I>(stream, *final(inbound))
                &&& inbound.count() < usize::MAX ==> final(inbound).count() == inbound.count() + 1
            },
        forall|inbound: &mut Inbound<M>, receiver: UnboundedReceiver<M>| #[trigger]
            call_ensures(Inbound::<M>::push_receiver, (inbound, receiver), ()) ==> {
                &&& inbound.gained_receiver(receiver, *final(inbound))
                &&& inbound.count() < usize::MAX ==> final(inbound).count() == inbound.count() + 1
            },
        forall|inbound: &mut Inbound<M>, other: Inbound<M>| #[trigger]
            call_ensures(Inbound::<M>::absorb, (inbound, other), ()) ==> {
                &&& inbound.absorbed(other, *final(inbound))
                &&& inbound.count() + other.count() <= usize::MAX ==> final(inbound).count()
                    == inbound.count() + other.count()
            },
{
}

/// Everything starts out empty, and how much there is, is told truly.
pub proof fn law_sources_are_counted<M: Sendable>()
    ensures
        forall|queue: MessageQueue<M>| #[trigger]
            call_ensures(MessageQueue::<M>::new, (), queue) ==> queue.tasks().len() == 0,
        forall|tasks: Tasks| #[trigger]
            call_ensures(Tasks::new, (), tasks) ==> tasks.numbers().len() == 0,
        forall|inbound: Inbound<M>| #[trigger]
            call_ensures(Inbound::<M>::new, (), inbound) ==> inbound.count() == 0,
        forall|queue: MessageQueue<M>, len: usize| #[trigger]
            call_ensures(MessageQueue::<M>::len, (&queue,), len) ==> len == queue.tasks().len(),
        forall|tasks: Tasks, empty: bool| #[trigger]
            call_ensures(Tasks::is_empty, (&tasks,), empty) ==> (empty <==> tasks.numbers().len()
                == 0),
{
}

/// What is counted is what the sets hold.
proof fn law_counts_are_those_of_the_sets<M>(queue: MessageQueue<M>, tasks: Tasks, inbound: Inbound<M>)
    ensures
        match queue.set {
            Some(set) => queue.tasks() == set.tasks@ && queue.count() == set.tasks@.len(),
            None => queue.tasks().len() == 0 && queue.count() == 0,
        },
        match tasks.set {
            Some(set) => tasks.numbers() == pending(set),
            None => tasks.numbers().len() == 0,
        },
        match inbound.set {
            Some(set) => inbound.count() == set.len,
            None => inbound.count() == 0,
        },
{
}

/// A poll of a source is one poll of the stream that it is made of, in the context of the caller. What
/// that leaves behind is kept until the first `None`, after which the stream is gone and is not polled
/// again.
pub proof fn law_source_polls_until_closed<S, I>() where S: SendableFusedStream<I>
    ensures
        forall|stream: S, source: Source<S>| #[trigger]
            call_ensures(Source::<S>::new, (stream,), source) ==> source.stream() == Some(stream),
        forall|source: &mut Source<S>, cx: &mut Context<'_>, next: Poll<Option<I>>| #[trigger]
            call_ensures(Source::<S>::poll_next::<I>, (source, cx), next) ==> {
                &&& source.stream() is None ==> {
                    &&& next == Poll::Ready(None::<I>)
                    &&& final(source).stream() is None
                }
                &&& source.stream() is Some ==> exists|polled: &mut S, waker: &mut Context<'_>|
                    {
                        &&& #[trigger] call_ensures(S::poll_next, (polled, waker), next)
                        &&& *polled == source.stream()->0
                        &&& *waker == *cx
                        &&& next == Poll::Ready(None::<I>) ==> final(source).stream() is None
                        &&& next != Poll::Ready(None::<I>) ==> final(source).stream() == Some(
                            *final(polled),
                        )
                    }
            },
{
}

/// Futures and streams can be put in whatever is there, as long as the futures can be counted, and
/// what is there can be polled at any time.
pub proof fn law_sources_take_more<M: Sendable, S, I>() where
    S: SendableFusedStream<I>,
    I: 'static + Into<M>,

    ensures
        forall|queue: &mut MessageQueue<M>, task: FutureObj<'static, M>|
            queue.count() < usize::MAX ==> #[trigger] call_requires(
                MessageQueue::<M>::push,
                (queue, task),
            ),
        forall|inbound: &mut Inbound<M>, stream: S| #[trigger]
            call_requires(Inbound::<M>::push::<S, I>, (inbound, stream)),
        forall|queue: &mut MessageQueue<M>, cx: &mut Context<'_>| #[trigger]
            call_requires(MessageQueue::<M>::poll, (queue, cx)),
        forall|tasks: &mut Tasks, cx: &mut Context<'_>| #[trigger]
            call_requires(Tasks::poll, (tasks, cx)),
        forall|inbound: &mut Inbound<M>, cx: &mut Context<'_>| #[trigger]
            call_requires(Inbound::<M>::poll, (inbound, cx)),
{
}

/* ------ Fairness ------ */

/// `tokio::macros::support::thread_rng_n`, with which `tokio::select!` picks the branch that it
/// polls first, returns a number below `n`. Which one is up to chance.
#[verifier::external_body]
pub(crate) fn pick(n: u32) -> (r: u32)
    requires
        n > 0,
    ensures
        r < n,
{
    tokio::macros::support::thread_rng_n(n)
}

} // verus!
