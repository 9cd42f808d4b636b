//! The bookkeeping of an actor: where its messages come from and when it has to close.

use std::future::Future;
use std::ops::Deref;
use std::task::Context;
use std::task::Poll;

use futures::future::poll_fn;
use futures::task::FutureObj;
use tokio::sync::broadcast;
use tokio::sync::mpsc::UnboundedReceiver;
use vstd::prelude::*;

use crate::compat::Sendable;
use crate::compat::SendableFuture;
use crate::compat::SendableFusedStream;
use crate::edges::edge_count;
use crate::edges::Edges;
use crate::laws::law_waiting_uses_up_sources;
use crate::pollset::boxed;
use crate::pollset::boxed_into;
use crate::pollset::lemma_futures_left;
use crate::pollset::lemma_streams_left;
use crate::pollset::lemma_tasks_left;
use crate::pollset::pick;
use crate::pollset::go_on;
use crate::pollset::went_on;
use crate::pollset::Inbound;
use crate::pollset::MessageQueue;
use crate::pollset::Tasks;
use crate::sink::SinkClient;

verus! {

/// Encapsulates the different states a scheduler can be in. Largely used to communicate how a state
/// wishes to shut down.
#[derive(Debug, Clone, Copy, PartialEq, Eq, Structural)]
pub enum SchedulerStatus {
    /// The actor runs until it can not receive another message.
    Alive,
    /// The actor closes and drops the futures that are managed for it.
    Marked,
    /// The actor closes and the futures that are managed for it run to completion.
    MarkedToFinish,
}

/// What the scheduler goes by when it decides whether its actor goes on.
pub struct Ledger {
    /// The number of streams that could yield a message for the actor to process.
    pub streams: nat,
    /// The number of futures that could yield a message for the actor to process.
    pub futures: nat,
    /// The number of futures that are managed for the actor and yield nothing.
    pub managed: nat,
    /// How the actor wants to shut down, if it does.
    pub status: SchedulerStatus,
}

impl Ledger {
    /// If nothing will ever be processed again, because no message can arrive or because the actor
    /// asked to shut down.
    pub open spec fn is_dead(self) -> bool {
        ||| self.streams == 0 && self.futures == 0
        ||| self.status != SchedulerStatus::Alive
    }
}

/// Something that happened in one of the sources that a scheduler polls.
pub enum Event<M> {
    /// A stream yielded a message.
    Arrived(M),
    /// Every stream has closed.
    Closed,
    /// A future yielded a message.
    Resolved(M),
    /// A managed future completed.
    Finished,
}

impl Ledger {
    /// If the source of the event is one that the scheduler polls.
    pub open spec fn admits<M>(self, event: Event<M>) -> bool {
        match event {
            Event::Arrived(_) => self.streams > 0,
            Event::Closed => self.streams > 0,
            Event::Resolved(_) => self.futures > 0,
            Event::Finished => self.managed > 0,
        }
    }

    /// The ledger after the event.
    pub open spec fn after<M>(self, event: Event<M>) -> Ledger {
        match event {
            Event::Arrived(_) => self,
            Event::Closed => Ledger { streams: (self.streams - 1) as nat, ..self },
            Event::Resolved(_) => Ledger { futures: (self.futures - 1) as nat, ..self },
            Event::Finished => Ledger { managed: (self.managed - 1) as nat, ..self },
        }
    }

    /// The ledger after all of these events.
    pub open spec fn after_all<M>(self, events: Seq<Event<M>>) -> Ledger
        decreases events.len(),
    {
        if events.len() == 0 {
            self
        } else {
            self.after_all(events.drop_last()).after(events.last())
        }
    }

    /// If these events can happen one after the other while the scheduler waits for a message: each
    /// finds the actor alive and its source polled, and only the last may yield something.
    pub open spec fn unfolds<M>(self, events: Seq<Event<M>>) -> bool
        decreases events.len(),
    {
        events.len() > 0 ==> {
            let earlier = events.drop_last();
            &&& self.unfolds(earlier)
            &&& earlier.len() > 0 ==> earlier.last().yields() is None
            &&& !self.after_all(earlier).is_dead()
            &&& self.after_all(earlier).admits(events.last())
        }
    }

    /// What the scheduler answers after these events: what the last of them yields, `None` if the
    /// actor is dead, and otherwise that the wait goes on.
    pub open spec fn answer<M>(self, events: Seq<Event<M>>) -> Poll<Option<M>> {
        if events.len() > 0 && events.last().yields() is Some {
            Poll::Ready(events.last().yields())
        } else if self.after_all(events).is_dead() {
            Poll::Ready(None)
        } else {
            Poll::Pending
        }
    }
}

impl<M> Event<M> {
    /// The message that this event yields, if it does.
    pub open spec fn yields(self) -> Option<M> {
        match self {
            Event::Arrived(msg) => Some(msg),
            Event::Closed => None,
            Event::Resolved(msg) => Some(msg),
            Event::Finished => None,
        }
    }
}

/// Where the messages of an actor come from, and what is managed for it.
#[verifier::reject_recursive_types(M)]
pub struct Sources<M> {
    /// The inbound streams.
    pub streams: Inbound<M>,
    /// The futures that will yield a message.
    pub futures: MessageQueue<M>,
    /// The futures that are managed.
    pub managed: Tasks,
}

impl<M> Sources<M> {
    /// If a poll of one of the sources came back with this event, after polls of others came back
    /// with nothing or were not made, and if this left `after` behind.
    pub open spec fn yields(self, event: Event<M>, after: Self) -> bool where M: Sendable {
        match event {
            Event::Arrived(msg) => {
                &&& self.streams.said(Poll::Ready(Some(msg)), after.streams)
                &&& self.futures.rests(after.futures)
                &&& self.managed.rests(after.managed)
            },
            Event::Closed => {
                &&& self.streams.said(Poll::Ready(None), after.streams)
                &&& self.futures.rests(after.futures)
                &&& self.managed.rests(after.managed)
            },
            Event::Resolved(msg) => {
                &&& self.streams.rests(after.streams)
                &&& self.futures.said(Poll::Ready(Some(msg)), after.futures)
                &&& self.managed.rests(after.managed)
            },
            Event::Finished => {
                &&& self.streams.rests(after.streams)
                &&& self.futures.rests(after.futures)
                &&& exists|number: usize| #[trigger]
                    self.managed.said(Poll::Ready(Some(number)), after.managed)
            },
        }
    }

    /// If polls of the sources came back with these events, one after the other, with the sources
    /// as in `trail` before, between and after them.
    pub open spec fn yields_all(events: Seq<Event<M>>, trail: Seq<Self>) -> bool where M: Sendable {
        &&& trail.len() == events.len() + 1
        &&& forall|i: int|
            0 <= i < events.len() ==> trail[i].yields(#[trigger] events[i], trail[i + 1])
    }

    /// If none of the streams and none of the futures that yield messages is left.
    pub open spec fn exhausted(self) -> bool {
        self.streams.count() == 0 && self.futures.count() == 0
    }

    /// If a poll of every source that could come up with something came back with nothing, and if
    /// this left `after` behind.
    pub open spec fn idles(self, ledger: Ledger, after: Self) -> bool where M: Sendable {
        &&& if ledger.streams > 0 {
            self.streams.said(Poll::Pending, after.streams)
        } else {
            after.streams == self.streams
        }
        &&& if ledger.futures > 0 {
            self.futures.said(Poll::Pending, after.futures)
        } else {
            after.futures == self.futures
        }
        &&& if ledger.managed > 0 {
            self.managed.said(Poll::Pending, after.managed)
        } else {
            after.managed == self.managed
        }
    }
}

/// Everything that a scheduler keeps for its actor, except for the kind.
#[verifier::reject_recursive_types(M)]
pub struct Books<M> {
    /// Where messages come from.
    pub sources: Sources<M>,
    /// The connections to other actors.
    pub edges: Edges,
    /// What the scheduler goes by when it decides whether its actor goes on.
    pub ledger: Ledger,
}

impl<M> Books<M> {
    /// If the ledger covers the sources: no stream is left that it does not count, and it counts
    /// exactly the futures that are left.
    pub open spec fn balanced(self) -> bool {
        &&& self.sources.streams.count() <= self.ledger.streams
        &&& self.sources.futures.count() == self.ledger.futures
        &&& self.sources.managed.numbers().len() == self.ledger.managed
    }

    /// If these events can happen one after the other while the scheduler waits for a message, with
    /// the sources as in `trail` before, between and after them.
    pub open spec fn runs(self, events: Seq<Event<M>>, trail: Seq<Sources<M>>) -> bool where M: Sendable {
        &&& self.ledger.unfolds(events)
        &&& Sources::yields_all(events, trail)
        &&& trail.first() == self.sources
    }

    /// The books after the events of such a run.
    pub open spec fn after_run(self, events: Seq<Event<M>>, trail: Seq<Sources<M>>) -> Self {
        Books { sources: trail.last(), ledger: self.ledger.after_all(events), ..self }
    }
}

proof fn lemma_event_keeps_balance<M: Sendable>(before: Books<M>, event: Event<M>, after: Books<M>)
    requires
        before.balanced(),
        before.ledger.admits(event),
        before.sources.yields(event, after.sources),
        after.ledger == before.ledger.after(event),
    ensures
        after.balanced(),
        event is Closed ==> after.sources.streams.count() == 0,
        before.sources.exhausted() ==> after.sources.exhausted() && event.yields() is None,
{
    let (a, b) = (before.sources, after.sources);
    if a.streams.said(Poll::Pending, b.streams) {
        lemma_streams_left(a.streams, Poll::Pending, b.streams);
    }
    if a.futures.said(Poll::Pending, b.futures) {
        lemma_futures_left(a.futures, Poll::Pending, b.futures);
    }
    if a.managed.said(Poll::Pending, b.managed) {
        lemma_tasks_left(a.managed, Poll::Pending, b.managed);
    }
    match event {
        Event::Arrived(msg) => {
            lemma_streams_left(a.streams, Poll::Ready(Some(msg)), b.streams);
        },
        Event::Closed => {
            lemma_streams_left(a.streams, Poll::Ready(None), b.streams);
        },
        Event::Resolved(msg) => {
            lemma_futures_left(a.futures, Poll::Ready(Some(msg)), b.futures);
        },
        Event::Finished => {
            let number = choose|number: usize| #[trigger]
                a.managed.said(Poll::Ready(Some(number)), b.managed);
            lemma_tasks_left(a.managed, Poll::Ready(Some(number)), b.managed);
        },
    }
}

/// The books stay balanced while the scheduler waits for a message, and sources that are exhausted
/// stay so and yield nothing.
pub proof fn lemma_run_keeps_balance<M: Sendable>(
    books: Books<M>,
    events: Seq<Event<M>>,
    trail: Seq<Sources<M>>,
)
    requires
        books.balanced(),
        books.runs(events, trail),
    ensures
        books.after_run(events, trail).balanced(),
        books.sources.exhausted() ==> {
            &&& trail.last().exhausted()
            &&& events.len() > 0 ==> events.last().yields() is None
        },
    decreases events.len(),
{
    if events.len() > 0 {
        let earlier = events.drop_last();
        let shorter = trail.drop_last();
        assert forall|i: int| 0 <= i < earlier.len() implies shorter[i].yields(
            #[trigger] earlier[i],
            shorter[i + 1],
        ) by {
            assert(trail[i].yields(events[i], trail[i + 1]));
        }
        lemma_run_keeps_balance(books, earlier, shorter);
        assert(trail[events.len() - 1].yields(events[events.len() - 1], trail[events.len() as int]));
        lemma_event_keeps_balance(
            books.after_run(earlier, shorter),
            events.last(),
            books.after_run(events, trail),
        );
    }
}

/// The books stay balanced when a poll of every source that could come up with something comes back
/// with nothing.
pub proof fn lemma_idling_keeps_balance<M: Sendable>(books: Books<M>, after: Sources<M>)
    requires
        books.balanced(),
        books.sources.idles(books.ledger, after),
    ensures
        (Books { sources: after, ..books }).balanced(),
        books.sources.exhausted() ==> after.exhausted(),
{
    if books.ledger.streams > 0 {
        lemma_streams_left(books.sources.streams, Poll::Pending, after.streams);
    }
    if books.ledger.futures > 0 {
        lemma_futures_left(books.sources.futures, Poll::Pending, after.futures);
    }
    if books.ledger.managed > 0 {
        lemma_tasks_left(books.sources.managed, Poll::Pending, after.managed);
    }
}

/// The primary bookkeeper for the actor. The state attaches streams and queues futures, which the
/// scheduler polls together. The scheduler also tracks if it is possible that no other message will
/// be yielded for the actor to process. If it finds itself in a state where all streams are closed
/// and there are no queued futures, it will close the actor; otherwise, the deadlocked actor will
/// stay in memory doing nothing.
///
/// Note: If the scheduler finds that the actor is dead but is also managing futures for it, those
/// futures are handed over to be polled to completion in a new async task.
#[verifier::reject_recursive_types(M)]
pub struct Scheduler<M, K> {
    /// The inbound streams to the actor.
    recv: Inbound<M>,
    /// Futures that the actor has queued that will yield a message.
    queue: MessageQueue<M>,
    /// Futures that yield nothing that the scheduler will manage and poll for the actor.
    tasks: Tasks,
    /// How messages get into and out of the actor.
    kind: K,
    /// Connections to other actors, which can be accessed at runtime without embedding them into
    /// the actor state directly.
    edges: Edges,
    /// The number of streams that could yield a message for the actor to process. Once this and the
    /// number of queued futures both reach zero, the actor is dead as it can no longer process any
    /// messages.
    stream_count: usize,
    /// Tracks the status of the scheduler, mostly used to track how the state wants to shut down.
    status: SchedulerStatus,
}

impl<M, K> Scheduler<M, K> {
    /// What the scheduler goes by when it decides whether its actor goes on.
    pub closed spec fn ledger(self) -> Ledger {
        Ledger {
            streams: self.stream_count as nat,
            futures: self.queue.count(),
            managed: self.tasks.numbers().len(),
            status: self.status,
        }
    }

    /// The kind of the actor.
    pub closed spec fn kind(self) -> K {
        self.kind
    }

    /// The connections to other actors.
    pub closed spec fn edges(self) -> Edges {
        self.edges
    }

    /// Where the messages of the actor come from.
    pub closed spec fn sources(self) -> Sources<M> {
        Sources { streams: self.recv, futures: self.queue, managed: self.tasks }
    }

    /// Everything that is kept for the actor, except for the kind.
    pub open spec fn books(self) -> Books<M> {
        Books { sources: self.sources(), edges: self.edges(), ledger: self.ledger() }
    }

    /// The constructor for the scheduler.
    pub fn new(kind: K) -> (scheduler: Self)
        ensures
            scheduler.ledger() == (Ledger {
                streams: 0,
                futures: 0,
                managed: 0,
                status: SchedulerStatus::Alive,
            }),
            scheduler.sources().streams.count() == 0,
            scheduler.books().balanced(),
            scheduler.kind() == kind,
            edge_count(scheduler.edges()) == 0,
            scheduler.edges().is_bare(),
    {
        Self {
            recv: Inbound::new(),
            queue: MessageQueue::new(),
            tasks: Tasks::new(),
            kind,
            edges: Edges::new(),
            stream_count: 0,
            status: SchedulerStatus::Alive,
        }
    }

    /// Returns if the actor is dead and should be dropped.
    pub fn is_dead(&self) -> (dead: bool)
        ensures
            dead == self.ledger().is_dead(),
    {
        (self.stream_count == 0 && self.queue.len() == 0) || match self.status {
            SchedulerStatus::Alive => false,
            SchedulerStatus::Marked | SchedulerStatus::MarkedToFinish => true,
        }
    }

    /// Takes note of what happened in one of the sources, and returns the message that it yielded,
    /// if it did.
    fn settle(&mut self, event: Event<M>) -> (msg: Option<M>)
        requires
            event is Closed ==> old(self).ledger().streams > 0,
        ensures
            msg == event.yields(),
            final(self).ledger() == (if event is Closed {
                old(self).ledger().after(event)
            } else {
                old(self).ledger()
            }),
            final(self).kind() == old(self).kind(),
            final(self).edges() == old(self).edges(),
            final(self).sources() == old(self).sources(),
    {
        match event {
            Event::Arrived(msg) => Some(msg),
            Event::Closed => {
                self.stream_count -= 1;
                None
            },
            Event::Resolved(msg) => Some(msg),
            Event::Finished => None,
        }
    }

    /// Polls each source that could still come up with something, beginning with the one that
    /// `start` says, until one of them does.
    fn poll_sources(&mut self, cx: &mut Context<'_>, start: u32) -> (event: Option<Event<M>>) where
        M: Sendable,

        requires
            start < 3,
        ensures
            match event {
                Some(event) => {
                    &&& old(self).ledger().admits(event)
                    &&& old(self).sources().yields(event, final(self).sources())
                    &&& final(self).ledger() == (if event is Closed {
                        old(self).ledger()
                    } else {
                        old(self).ledger().after(event)
                    })
                },
                None => {
                    &&& final(self).ledger() == old(self).ledger()
                    &&& old(self).sources().idles(old(self).ledger(), final(self).sources())
                    &&& old(self).ledger().streams > 0 ==> old(self).sources().streams.told(
                        *old(cx),
                        Poll::Pending,
                        final(self).sources().streams,
                    )
                    &&& old(self).ledger().futures > 0 ==> old(self).sources().futures.told(
                        *old(cx),
                        Poll::Pending,
                        final(self).sources().futures,
                    )
                    &&& old(self).ledger().managed > 0 ==> old(self).sources().managed.told(
                        *old(cx),
                        Poll::Pending,
                        final(self).sources().managed,
                    )
                },
            },
            *final(cx) == *old(cx),
            final(self).kind() == old(self).kind(),
            final(self).edges() == old(self).edges(),
    {
        let mut i: u32 = 0;
        while i < 3
            invariant
                start < 3,
                i <= 3,
                *cx == *old(cx),
                self.ledger() == old(self).ledger(),
                self.kind() == old(self).kind(),
                self.edges() == old(self).edges(),
                if (3 - start) % 3 < i && self.ledger().streams > 0 {
                    old(self).recv.told(*old(cx), Poll::Pending, self.recv)
                } else {
                    self.recv == old(self).recv
                },
                if (4 - start) % 3 < i && self.ledger().futures > 0 {
                    old(self).queue.told(*old(cx), Poll::Pending, self.queue)
                } else {
                    self.queue == old(self).queue
                },
                if (5 - start) % 3 < i && self.ledger().managed > 0 {
                    old(self).tasks.told(*old(cx), Poll::Pending, self.tasks)
                } else {
                    self.tasks == old(self).tasks
                },
            decreases 3 - i,
        {
            let branch: u32 = (start + i) % 3;
            if branch == 0 {
                if self.stream_count != 0 {
                    match self.recv.poll(cx) {
                        Poll::Ready(Some(msg)) => {
                            return Some(Event::Arrived(msg));
                        },
                        Poll::Ready(None) => {
                            return Some(Event::Closed);
                        },
                        Poll::Pending => {},
                    }
                }
            } else if branch == 1 {
                if self.queue.len() != 0 {
                    match self.queue.poll(cx) {
                        Poll::Ready(Some(msg)) => {
                            return Some(Event::Resolved(msg));
                        },
                        Poll::Ready(None) => {},
                        Poll::Pending => {},
                    }
                }
            } else {
                if !self.tasks.is_empty() {
                    match self.tasks.poll(cx) {
                        Poll::Ready(Some(number)) => {
                            assert(old(self).sources().managed.said(
                                Poll::Ready(Some(number)),
                                self.sources().managed,
                            ));
                            return Some(Event::Finished);
                        },
                        Poll::Ready(None) => {},
                        Poll::Pending => {},
                    }
                }
            }
            i += 1;
        }
        None
    }

    /// Polls for the next message to be processed by the actor state: `None` says that there will
    /// be no other one.
    ///
    /// Of the sources that are polled, the first to come up with something decides. Which of them
    /// is asked first is up to chance.
    pub fn poll_next(&mut self, cx: &mut Context<'_>) -> (next: Poll<Option<M>>) where M: Sendable
        ensures
            exists|events: Seq<Event<M>>, trail: Seq<Sources<M>>|
                {
                    &&& #[trigger] old(self).books().runs(events, trail)
                    &&& next == old(self).ledger().answer(events)
                    &&& final(self).ledger() == old(self).ledger().after_all(events)
                    &&& if next is Pending {
                        &&& trail.last().idles(final(self).ledger(), final(self).sources())
                        &&& final(self).ledger().streams > 0 ==> trail.last().streams.told(
                            *old(cx),
                            Poll::Pending,
                            final(self).sources().streams,
                        )
                        &&& final(self).ledger().futures > 0 ==> trail.last().futures.told(
                            *old(cx),
                            Poll::Pending,
                            final(self).sources().futures,
                        )
                        &&& final(self).ledger().managed > 0 ==> trail.last().managed.told(
                            *old(cx),
                            Poll::Pending,
                            final(self).sources().managed,
                        )
                    } else {
                        trail.last() == final(self).sources()
                    }
                },
            old(self).ledger().is_dead() ==> {
                &&& next == Poll::Ready(None::<M>)
                &&& *final(self) == *old(self)
            },
            final(self).ledger().status == old(self).ledger().status,
            !(next matches Poll::Ready(Some(_))) ==> final(self).ledger().futures
                == old(self).ledger().futures,
            old(self).books().balanced() ==> {
                &&& final(self).books().balanced()
                &&& next == Poll::Ready(None::<M>) ==> {
                    ||| final(self).ledger().status != SchedulerStatus::Alive
                    ||| final(self).sources().exhausted()
                }
                &&& old(self).sources().exhausted() ==> {
                    &&& !(next matches Poll::Ready(Some(_)))
                    &&& final(self).sources().exhausted()
                }
            },
            final(self).kind() == old(self).kind(),
            final(self).edges() == old(self).edges(),
    {
        let ghost books = self.books();
        let ghost mut events = Seq::<Event<M>>::empty();
        let ghost mut trail = seq![self.sources()];
        loop
            invariant
                books == old(self).books(),
                *cx == *old(cx),
                books.runs(events, trail),
                trail.last() == self.sources(),
                old(self).ledger().is_dead() ==> *self == *old(self),
                events.len() > 0 ==> events.last().yields() is None,
                self.ledger() == books.ledger.after_all(events),
                self.kind() == old(self).kind(),
                self.edges() == old(self).edges(),
            decreases self.ledger().streams + self.ledger().managed,
        {
            proof {
                law_waiting_uses_up_sources(books.ledger, events);
                if books.balanced() {
                    lemma_run_keeps_balance(books, events, trail);
                }
            }
            if self.is_dead() {
                return Poll::Ready(None);
            }
            let ghost before = self.books();
            match self.poll_sources(cx, pick(3)) {
                Some(event) => {
                    proof {
                        let extended = events.push(event);
                        let longer = trail.push(self.sources());
                        assert(extended.drop_last() == events);
                        assert(Sources::yields_all(extended, longer)) by {
                            assert forall|i: int| 0 <= i < extended.len() implies longer[i].yields(
                                #[trigger] extended[i],
                                longer[i + 1],
                            ) by {
                                if i < events.len() {
                                    assert(trail[i].yields(events[i], trail[i + 1]));
                                }
                            }
                        }
                        events = extended;
                        trail = longer;
                        assert(books.runs(events, trail));
                    }
                    if let Some(msg) = self.settle(event) {
                        proof {
                            law_waiting_uses_up_sources(books.ledger, events);
                            if books.balanced() {
                                lemma_run_keeps_balance(books, events, trail);
                            }
                        }
                        return Poll::Ready(Some(msg));
                    }
                },
                None => {
                    proof {
                        if books.balanced() {
                            lemma_idling_keeps_balance(before, self.sources());
                        }
                    }
                    return Poll::Pending;
                },
            }
        }
    }

    /// Performs the final actions before closing the actor process. Returns the managed futures
    /// that are to be polled to completion in a new async process, or `None` if they are dropped.
    pub fn finalize(self) -> (rest: Option<Tasks>)
        ensures
            rest == match self.ledger().status {
                SchedulerStatus::Alive | SchedulerStatus::MarkedToFinish => Some(
                    self.sources().managed,
                ),
                SchedulerStatus::Marked => None,
            },
    {
        match self.status {
            SchedulerStatus::Alive | SchedulerStatus::MarkedToFinish => Some(self.tasks),
            SchedulerStatus::Marked => None,
        }
    }

    /// Queues a future in the scheduler that it will manage and poll. The output from the future
    /// must be convertible into a message for the actor to process. If you'd like the scheduler to
    /// just manage and poll the future, see the [`manage_future`](Scheduler::manage_future)
    /// method.
    ///
    /// Note: There is no ordering to the collection of futures. Moreover, there is no ordering
    /// between the queued futures and attached streams. The first to yield an item is the first to
    /// be processed. For this reason, the futures queued this way must be `'static`, i.e. they
    /// can't reference the actor's state.
    pub fn queue_task<F, I>(&mut self, fut: F) where
        F: SendableFuture + Future<Output = I>,
        I: 'static + Into<M>,
        M: 'static,

        requires
            old(self).ledger().futures < usize::MAX,
        ensures
            final(self).ledger() == (Ledger {
                futures: old(self).ledger().futures + 1,
                ..old(self).ledger()
            }),
            exists|task: FutureObj<'static, M>| #[trigger]
                resolves_into::<F, I, M>(fut, task) && old(self).sources().futures.gained(
                    task,
                    final(self).sources().futures,
                ) && final(self).sources().futures.tasks()
                    == old(self).sources().futures.tasks().insert(task),
            final(self).sources().streams == old(self).sources().streams,
            final(self).sources().managed == old(self).sources().managed,
            old(self).books().balanced() ==> final(self).books().balanced(),
            final(self).kind() == old(self).kind(),
            final(self).edges() == old(self).edges(),
    {
        let task: FutureObj<'static, M> = boxed_into(fut);
        let ghost pushed = task;
        self.queue.push(task);
        assert(resolves_into::<F, I, M>(fut, pushed));
    }

    /// Adds the given future to an internal queue of futures that the scheduler will manage;
    /// however, anything that the future yields will be dropped immediately. If the item yielded
    /// by the future can be turned into a message for the actor and you would like the actor to
    /// process it, see the [`queue_task`](Scheduler::queue_task) method.
    ///
    /// Note: Managed futures are polled at the same time as the queued futures that yield messages
    /// and the attached streams. For this reason, the futures managed this way must be `'static`,
    /// i.e. they can't reference the actor's state.
    pub fn manage_future<F, T>(&mut self, fut: F) where
        F: SendableFuture + Future<Output = T>,
        T: Sendable,

        ensures
            final(self).ledger() == (Ledger {
                managed: old(self).ledger().managed + 1,
                ..old(self).ledger()
            }),
            old(self).sources().managed.gained::<F, T>(fut, 0, final(self).sources().managed),
            final(self).sources().streams == old(self).sources().streams,
            final(self).sources().futures == old(self).sources().futures,
            old(self).books().balanced() ==> final(self).books().balanced(),
            final(self).kind() == old(self).kind(),
            final(self).edges() == old(self).edges(),
    {
        self.tasks.push(fut, 0);
    }

    /// Attaches a stream that will be polled and managed by the scheduler. What the stream yields
    /// must be able to be converted into the actor's message type so that the actor can process it.
    /// The given stream must be fused; however, the scheduler requires a stronger invariant than
    /// that. The scheduler will mark a stream as "done" once the stream yields its first `None`.
    /// After that, the scheduler will never poll that stream again.
    pub fn attach_stream<S, I>(&mut self, stream: S) where
        S: SendableFusedStream<I>,
        I: 'static + Into<M>,
        M: 'static,

        requires
            old(self).ledger().streams < usize::MAX,
        ensures
            final(self).ledger() == (Ledger {
                streams: old(self).ledger().streams + 1,
                ..old(self).ledger()
            }),
            old(self).sources().streams.gained::<S, I>(stream, final(self).sources().streams),
            old(self).sources().streams.count() < usize::MAX ==> final(self).sources().streams.count() == old(self).sources().streams.count() + 1,
            old(self).books().balanced() ==> final(self).books().balanced(),
            final(self).sources().futures == old(self).sources().futures,
            final(self).sources().managed == old(self).sources().managed,
            final(self).kind() == old(self).kind(),
            final(self).edges() == old(self).edges(),
    {
        self.stream_count += 1;
        self.recv.push(stream);
    }

    /// Attaches the receiving half of a channel to the scheduler.
    pub(crate) fn attach_receiver(&mut self, receiver: UnboundedReceiver<M>) where M: Sendable
        requires
            old(self).ledger().streams < usize::MAX,
        ensures
            final(self).ledger() == (Ledger {
                streams: old(self).ledger().streams + 1,
                ..old(self).ledger()
            }),
            old(self).sources().streams.gained_receiver(receiver, final(self).sources().streams),
            old(self).sources().streams.count() < usize::MAX ==> final(self).sources().streams.count() == old(self).sources().streams.count() + 1,
            old(self).books().balanced() ==> final(self).books().balanced(),
            final(self).sources().futures == old(self).sources().futures,
            final(self).sources().managed == old(self).sources().managed,
            final(self).kind() == old(self).kind(),
            final(self).edges() == old(self).edges(),
    {
        self.stream_count += 1;
        self.recv.push_receiver(receiver);
    }

    /// Attaches a set of this many streams to the scheduler.
    pub(crate) fn attach_all(&mut self, streams: Inbound<M>, count: usize)
        requires
            old(self).ledger().streams + count <= usize::MAX,
        ensures
            final(self).ledger() == (Ledger {
                streams: old(self).ledger().streams + count as nat,
                ..old(self).ledger()
            }),
            old(self).sources().streams.absorbed(streams, final(self).sources().streams),
            old(self).books().balanced() && streams.count() <= count ==> final(self).books().balanced(),
            final(self).sources().futures == old(self).sources().futures,
            final(self).sources().managed == old(self).sources().managed,
            final(self).kind() == old(self).kind(),
            final(self).edges() == old(self).edges(),
    {
        self.stream_count += count;
        self.recv.absorb(streams);
    }

    /// Schedules a message to be given to the actor to process once the deadline has passed.
    pub fn schedule<D, I>(&mut self, deadline: D, msg: I) where
        D: SendableFuture + Future<Output = ()>,
        I: Into<M>,
        M: Sendable,

        requires
            old(self).ledger().futures < usize::MAX,
        ensures
            final(self).ledger() == (Ledger {
                futures: old(self).ledger().futures + 1,
                ..old(self).ledger()
            }),
            exists|timer: Timer<M>, task: FutureObj<'static, M>|
                {
                    &&& timer.waits_for(deadline)
                    &&& timer.message() is Some
                    &&& call_ensures(<I as Into<M>>::into, (msg,), timer.message()->0)
                    &&& #[trigger] runs_timer(timer, task)
                    &&& old(self).sources().futures.gained(task, final(self).sources().futures)
                    &&& final(self).sources().futures.tasks()
                        == old(self).sources().futures.tasks().insert(task)
                },
            final(self).sources().streams == old(self).sources().streams,
            final(self).sources().managed == old(self).sources().managed,
            old(self).books().balanced() ==> final(self).books().balanced(),
            final(self).kind() == old(self).kind(),
            final(self).edges() == old(self).edges(),
    {
        let timer: Timer<M> = Timer::new(deadline, msg.into());
        let ghost set = timer;
        let task: FutureObj<'static, M> = boxed_timer(timer);
        let ghost pushed = task;
        self.queue.push(task);
        assert(runs_timer(set, pushed));
    }

    /// Adds a client to the set of connections to other actors, which the state can access later.
    pub fn add_edge<P: Sendable>(&mut self, client: SinkClient<P>)
        ensures
            exists|edges: &mut Edges, replaced: Option<SinkClient<P>>|
                {
                    &&& #[trigger] call_ensures(Edges::put::<SinkClient<P>>, (edges, client), replaced)
                    &&& *edges == old(self).edges()
                    &&& *final(edges) == final(self).edges()
                },
            final(self).edges().keeps(Some(client)),
            old(self).edges().agrees_but_for::<SinkClient<P>>(final(self).edges()),
            edge_count(final(self).edges()) == edge_count(old(self).edges()) || edge_count(
                final(self).edges(),
            ) == edge_count(old(self).edges()) + 1,
            old(self).edges().keeps(None::<SinkClient<P>>) ==> edge_count(final(self).edges()) == edge_count(
                old(self).edges(),
            ) + 1,
            final(self).ledger() == old(self).ledger(),
            final(self).kind() == old(self).kind(),
            final(self).sources() == old(self).sources(),
    {
        let _ = self.edges.put(client);
    }

    /// Gets a reference to a sink client to another actor.
    pub fn get_edge<P: Sendable>(&self) -> (client: Option<&SinkClient<P>>)
        ensures
            edge_count(self.edges()) == 0 ==> client is None,
            forall|value: Option<SinkClient<P>>| #[trigger]
                self.edges().keeps(value) ==> match value {
                    Some(kept) => client == Some(&kept),
                    None => client is None,
                },
    {
        self.edges.find::<SinkClient<P>>()
    }

    /// Gets mutable reference to a sink client to another actor.
    pub fn get_edge_mut<P: Sendable>(&mut self) -> (client: Option<&mut SinkClient<P>>)
        ensures
            exists|edges: &mut Edges|
                {
                    &&& #[trigger] call_ensures(Edges::lend::<SinkClient<P>>, (edges,), client)
                    &&& *edges == old(self).edges()
                    &&& *final(edges) == final(self).edges()
                },
            old(self).edges().agrees_but_for::<SinkClient<P>>(final(self).edges()),
            forall|kept: Option<SinkClient<P>>| #[trigger]
                old(self).edges().keeps(kept) ==> match client {
                    Some(value) => kept == Some(*value),
                    None => kept is None,
                },
            match client {
                Some(value) => {
                    &&& old(self).edges().keeps(Some(*value))
                    &&& final(self).edges().keeps(Some(*final(value)))
                },
                None => {
                    &&& old(self).edges().keeps(None::<SinkClient<P>>)
                    &&& *final(self) == *old(self)
                },
            },
            edge_count(final(self).edges()) == edge_count(old(self).edges()),
            final(self).ledger() == old(self).ledger(),
            final(self).kind() == old(self).kind(),
            final(self).sources() == old(self).sources(),
    {
        self.edges.lend::<SinkClient<P>>()
    }

    /// Removes a client from the set of connections to other actors.
    pub fn remove_edge<P: Sendable>(&mut self)
        ensures
            exists|edges: &mut Edges, removed: Option<SinkClient<P>>|
                {
                    &&& #[trigger] call_ensures(Edges::take::<SinkClient<P>>, (edges,), removed)
                    &&& *edges == old(self).edges()
                    &&& *final(edges) == final(self).edges()
                },
            final(self).edges().keeps(None::<SinkClient<P>>),
            old(self).edges().agrees_but_for::<SinkClient<P>>(final(self).edges()),
            old(self).edges().keeps(None::<SinkClient<P>>) ==> *final(self) == *old(self),
            final(self).ledger() == old(self).ledger(),
            final(self).kind() == old(self).kind(),
            final(self).sources() == old(self).sources(),
    {
        let _ = self.edges.take::<SinkClient<P>>();
    }

    /// Adds an arbitrary data to the set of connections to other actors, which the state can
    /// access later. This method is intended to be used with containers that hold multiple clients
    /// of the same type.
    ///
    /// For example, you can attach a series of actor clients that are indexed using a hashmap.
    pub fn add_multi_edge<C: 'static + Send>(&mut self, container: C)
        ensures
            exists|edges: &mut Edges, replaced: Option<C>|
                {
                    &&& #[trigger] call_ensures(Edges::put::<C>, (edges, container), replaced)
                    &&& *edges == old(self).edges()
                    &&& *final(edges) == final(self).edges()
                },
            final(self).edges().keeps(Some(container)),
            old(self).edges().agrees_but_for::<C>(final(self).edges()),
            edge_count(final(self).edges()) == edge_count(old(self).edges()) || edge_count(
                final(self).edges(),
            ) == edge_count(old(self).edges()) + 1,
            old(self).edges().keeps(None::<C>) ==> edge_count(final(self).edges()) == edge_count(
                old(self).edges(),
            ) + 1,
            final(self).ledger() == old(self).ledger(),
            final(self).kind() == old(self).kind(),
            final(self).sources() == old(self).sources(),
    {
        let _ = self.edges.put(container);
    }

    /// Gets a reference to an arbitrary type held in the container that holds connections to other
    /// actors. This method is intended to be used with containers that hold multiple clients of
    /// the same type.
    ///
    /// For example, you can store and access a series of actor clients that are indexed using a
    /// hashmap.
    pub fn get_multi_edge<C: 'static + Send>(&self) -> (container: Option<&C>)
        ensures
            edge_count(self.edges()) == 0 ==> container is None,
            forall|value: Option<C>| #[trigger]
                self.edges().keeps(value) ==> match value {
                    Some(kept) => container == Some(&kept),
                    None => container is None,
                },
    {
        self.edges.find::<C>()
    }

    /// Gets a mutable reference to an arbitrary type held in the container that holds connections
    /// to other actors. This method is intended to be used with containers that hold multiple
    /// clients of the same type.
    pub fn get_multi_edge_mut<C: 'static + Send>(&mut self) -> (container: Option<&mut C>)
        ensures
            exists|edges: &mut Edges|
                {
                    &&& #[trigger] call_ensures(Edges::lend::<C>, (edges,), container)
                    &&& *edges == old(self).edges()
                    &&& *final(edges) == final(self).edges()
                },
            old(self).edges().agrees_but_for::<C>(final(self).edges()),
            forall|kept: Option<C>| #[trigger]
                old(self).edges().keeps(kept) ==> match container {
                    Some(value) => kept == Some(*value),
                    None => kept is None,
                },
            match container {
                Some(value) => {
                    &&& old(self).edges().keeps(Some(*value))
                    &&& final(self).edges().keeps(Some(*final(value)))
                },
                None => {
                    &&& old(self).edges().keeps(None::<C>)
                    &&& *final(self) == *old(self)
                },
            },
            edge_count(final(self).edges()) == edge_count(old(self).edges()),
            final(self).ledger() == old(self).ledger(),
            final(self).kind() == old(self).kind(),
            final(self).sources() == old(self).sources(),
    {
        self.edges.lend::<C>()
    }

    /// Removes a piece of arbitrary data from the set of connections to other actors.
    pub fn remove_multi_edge<C: 'static + Send>(&mut self)
        ensures
            exists|edges: &mut Edges, removed: Option<C>|
                {
                    &&& #[trigger] call_ensures(Edges::take::<C>, (edges,), removed)
                    &&& *edges == old(self).edges()
                    &&& *final(edges) == final(self).edges()
                },
            final(self).edges().keeps(None::<C>),
            old(self).edges().agrees_but_for::<C>(final(self).edges()),
            old(self).edges().keeps(None::<C>) ==> *final(self) == *old(self),
            final(self).ledger() == old(self).ledger(),
            final(self).kind() == old(self).kind(),
            final(self).sources() == old(self).sources(),
    {
        let _ = self.edges.take::<C>();
    }

    /// Marks the actor as ready to shutdown. After the state finishes processing the current
    /// message, actor process will shutdown. Any unprocessed messages will be dropped, all
    /// attached streams will be closed, all futures that will yield a message will be cancelled,
    /// and all managed futures will dropped. If you would like the managed (non-message) futures
    /// to be processed, use the [`shutdown_and_finish`](Scheduler::shutdown_and_finish) method
    /// instead.
    pub fn shutdown(&mut self)
        ensures
            final(self).ledger() == (Ledger {
                status: SchedulerStatus::Marked,
                ..old(self).ledger()
            }),
            final(self).kind() == old(self).kind(),
            final(self).edges() == old(self).edges(),
            final(self).sources() == old(self).sources(),
    {
        self.status = SchedulerStatus::Marked;
    }

    /// Marks the actor as ready to shutdown. After the state finishes processing the current
    /// message, it will shutdown the actor processes. Any unprocessed messages will be dropped,
    /// all attached streams will be closed, all futures that will yield a message will be
    /// cancelled, but all managed futures will be polled to completion in a new async process. If
    /// you would like for the managed futures and streams to be dropped instead, use the
    /// [`shutdown`](Scheduler::shutdown) method.
    pub fn shutdown_and_finish(&mut self)
        ensures
            final(self).ledger() == (Ledger {
                status: SchedulerStatus::MarkedToFinish,
                ..old(self).ledger()
            }),
            final(self).kind() == old(self).kind(),
            final(self).edges() == old(self).edges(),
            final(self).sources() == old(self).sources(),
    {
        self.status = SchedulerStatus::MarkedToFinish;
    }

    /// Borrows the kind of the actor for changing it in place.
    pub fn deref_mut(&mut self) -> (kind: &mut K)
        ensures
            *kind == old(self).kind(),
            final(self).kind() == *final(kind),
            final(self).ledger() == old(self).ledger(),
            final(self).edges() == old(self).edges(),
            final(self).sources() == old(self).sources(),
    {
        &mut self.kind
    }
}

impl<M, K> Deref for Scheduler<M, K> {
    type Target = K;

    fn deref(&self) -> (kind: &K)
        ensures
            *kind == self.kind(),
    {
        &self.kind
    }
}

impl<M, K: Outbound> Scheduler<M, K> {
    /// Broadcasts a message to all listening clients. If the message fails to send, the message
    /// will be dropped.
    ///
    /// Note: This method does nothing if the actor is a [`SinkActor`](crate::sink::SinkActor).
    /// [`StreamActor`](crate::stream::StreamActor)s and [`JointActor`](crate::joint::JointActor)s
    /// will be able to broadcast.
    pub fn broadcast<I>(&mut self, msg: I) where I: Into<K::Output>
        ensures
            match old(self).kind().outlet() {
                Some(before) => final(self).kind().outlet() matches Some(after) && before.relays(
                    msg,
                    after,
                ),
                None => final(self).kind().outlet() is None,
            },
            final(self).ledger() == old(self).ledger(),
            final(self).edges() == old(self).edges(),
            final(self).sources() == old(self).sources(),
    {
        if let Some(out) = self.kind.outbound() {
            out.send(msg)
        }
    }
}

/// The way out of an actor for the messages that it broadcasts, which not every kind of actor has.
pub trait Outbound {
    /// The type of the messages that are broadcast.
    type Output;

    /// The queue that broadcast messages go to, if there is one.
    spec fn outlet(&self) -> Option<OutboundQueue<Self::Output>>;

    /// Borrows the queue that broadcast messages go to, if there is one.
    fn outbound(&mut self) -> (out: Option<&mut OutboundQueue<Self::Output>>)
        ensures
            match out {
                Some(queue) => {
                    &&& old(self).outlet() == Some(*queue)
                    &&& final(self).outlet() == Some(*final(queue))
                },
                None => old(self).outlet() is None && final(self).outlet() is None,
            },
    ;
}

/// The manager for outbound messages that will be broadcast from the actor.
#[derive(Debug)]
#[verifier::reject_recursive_types(M)]
pub struct OutboundQueue<M> {
    send: broadcast::Sender<M>,
    /// The number of messages that were offered. It starts over once it can not grow.
    offers: u64,
}

impl<M> OutboundQueue<M> {
    /// The channel that the messages go to.
    pub closed spec fn channel(self) -> broadcast::Sender<M> {
        self.send
    }

    /// The number of messages that were offered, which starts over once it can not grow.
    pub closed spec fn offers(self) -> u64 {
        self.offers
    }

    /// If the message was offered to everyone who listens to the channel.
    pub open spec fn offered(self, msg: M) -> bool {
        exists|r: Result<usize, broadcast::error::SendError<M>>| #[trigger]
            call_ensures(broadcast::Sender::<M>::send, (&self.channel(), msg), r)
    }

    /// If the data was converted to a message, and if offering that once to everyone who listens to
    /// the channel is what made `after` out of this.
    pub open spec fn relays<I>(self, data: I, after: Self) -> bool where I: Into<M> {
        exists|msg: M|
            {
                &&& call_ensures(<I as Into<M>>::into, (data,), msg)
                &&& #[trigger] self.offered(msg)
                &&& after.channel() == self.channel()
                &&& after.offers() == (if self.offers() == u64::MAX {
                    0
                } else {
                    self.offers() + 1
                })
            }
    }

    /// Constructs a queue that sends to the given channel.
    pub fn new(send: broadcast::Sender<M>) -> (queue: Self)
        ensures
            queue.channel() == send,
            queue.offers() == 0,
    {
        Self { send, offers: 0 }
    }

    /// Converts the data to a message and offers it to everyone who listens to the channel. If
    /// nobody does, the message is dropped.
    pub fn send<I>(&mut self, data: I) where I: Into<M>
        ensures
            old(self).relays(data, *final(self)),
    {
        let msg: M = data.into();
        let ghost sent = msg;
        let r = self.send.send(msg);
        self.offers = self.offers.wrapping_add(1);
        assert(call_ensures(broadcast::Sender::<M>::send, (&old(self).channel(), sent), r));
        assert(old(self).offered(sent));
    }
}

/// A message and sleep timer pair. Once the timer has elapsed and is polled, the message is taken
/// out and returned. After that point, the timer can not be polled again.
#[verifier::reject_recursive_types(T)]
pub struct Timer<T> {
    /// The deadline and the message, until the message is returned.
    inner: Option<(FutureObj<'static, ()>, T)>,
}

impl<T> Timer<T> {
    /// The message, until it is returned.
    pub closed spec fn message(self) -> Option<T> {
        match self.inner {
            Some((_, msg)) => Some(msg),
            None => None,
        }
    }

    /// What the timer waits for, until the message is returned.
    pub closed spec fn deadline(self) -> Option<FutureObj<'static, ()>> {
        match self.inner {
            Some((deadline, _)) => Some(deadline),
            None => None,
        }
    }

    /// If this future, boxed, is what the timer waits for.
    pub closed spec fn waits_for<D>(self, deadline: D) -> bool where
        D: SendableFuture + Future<Output = ()>,
     {
        self.inner matches Some((fut, _)) && call_ensures(boxed::<D, ()>, (deadline,), fut)
    }

    /// Constructs a timer that returns the message once the deadline completes.
    pub fn new<D>(deadline: D, msg: T) -> (timer: Self) where
        D: SendableFuture + Future<Output = ()>,

        ensures
            timer.waits_for(deadline),
            timer.message() == Some(msg),
    {
        Self { inner: Some((boxed(deadline), msg)) }
    }

    /// Polls the deadline, and returns the message once it has passed.
    pub fn poll(&mut self, cx: &mut Context<'_>) -> (r: Poll<T>)
        requires
            old(self).message() is Some,
        ensures
            old(self).deadline() matches Some(deadline) && went_on(
                deadline,
                *old(cx),
                final(self).deadline(),
            ),
            match r {
                Poll::Ready(msg) => {
                    &&& old(self).message() == Some(msg)
                    &&& final(self).message() is None
                    &&& final(self).deadline() is None
                },
                Poll::Pending => {
                    &&& final(self).message() == old(self).message()
                    &&& final(self).deadline() is Some
                },
            },
    {
        let (deadline, msg) = self.inner.take().unwrap();
        match go_on(deadline, cx) {
            None => Poll::Ready(msg),
            Some(rest) => {
                self.inner = Some((rest, msg));
                Poll::Pending
            },
        }
    }
}

/// Boxes a timer with [`futures::task::FutureObj::new`], as the future that
/// [`futures::future::poll_fn`] makes out of it. Nothing is claimed of the box.
#[verifier::external_body]
fn boxed_timer<M: Sendable>(timer: Timer<M>) -> (r: FutureObj<'static, M>)
    requires
        timer.message() is Some,
{
    let mut timer = timer;
    FutureObj::new(Box::pin(poll_fn(move |cx| timer.poll(cx))))
}

/// If `task` is the timer, boxed.
pub closed spec fn runs_timer<M: Sendable>(timer: Timer<M>, task: FutureObj<'static, M>) -> bool {
    call_ensures(boxed_timer::<M>, (timer,), task)
}

/// Polls managed futures until there are none. Largely used when the scheduler closes.
///
/// The futures are polled over and over: each poll but the last comes back with one that completed,
/// and the last one says that there is none left, or that the others are not done yet.
pub fn poll_to_completion(tasks: &mut Tasks, cx: &mut Context<'_>) -> (r: Poll<()>)
    ensures
        final(tasks).numbers().subset_of(old(tasks).numbers()),
        r is Ready ==> final(tasks).numbers().len() == 0,
        exists|trail: Seq<Tasks>|
            {
                &&& #[trigger] Tasks::finishes_some(trail)
                &&& trail.len() > 0
                &&& trail.first() == *old(tasks)
                &&& trail.last().told(
                    *old(cx),
                    if r is Ready {
                        Poll::Ready(None)
                    } else {
                        Poll::Pending
                    },
                    *final(tasks),
                )
            },
{
    let ghost mut trail = seq![*tasks];
    loop
        invariant
            *cx == *old(cx),
            tasks.numbers().subset_of(old(tasks).numbers()),
            trail.len() > 0,
            Tasks::finishes_some(trail),
            trail.first() == *old(tasks),
            trail.last() == *tasks,
        decreases tasks.numbers().len(),
    {
        let polled = tasks.poll(cx);
        assert(trail.last().told(*old(cx), polled, *tasks));
        match polled {
            Poll::Ready(Some(number)) => {
                proof {
                    let longer = trail.push(*tasks);
                    assert forall|i: int| 0 <= i < longer.len() - 1 implies (
                    #[trigger] longer[i]).finishes_one(longer[i + 1]) by {
                        if i < trail.len() - 1 {
                            assert(trail[i].finishes_one(trail[i + 1]));
                        } else {
                            assert(longer[i].said(Poll::Ready(Some(number)), longer[i + 1]));
                        }
                    }
                    trail = longer;
                }
            },
            Poll::Ready(None) => {
                return Poll::Ready(());
            },
            Poll::Pending => {
                return Poll::Pending;
            },
        }
    }
}

/// If `task` is the future `fut`, boxed, with its output converted into a message.
pub closed spec fn resolves_into<F, I, M>(fut: F, task: FutureObj<'static, M>) -> bool where
    F: SendableFuture + Future<Output = I>,
    I: 'static + Into<M>,
    M: 'static,
 {
    call_ensures(boxed_into::<F, I, M>, (fut,), task)
}

/* ------ What is behind the words ------ */

/// What is said of a scheduler is said of what it holds: its ledger counts what it counts, and its
/// sources, edges and kind are the ones that it has.
proof fn law_scheduler_is_what_it_holds<M, K>(scheduler: Scheduler<M, K>)
    ensures
        scheduler.ledger().streams == scheduler.stream_count,
        scheduler.ledger().futures == scheduler.queue.tasks().len(),
        scheduler.ledger().managed == scheduler.tasks.numbers().len(),
        scheduler.ledger().status == scheduler.status,
        scheduler.sources().streams == scheduler.recv,
        scheduler.sources().futures == scheduler.queue,
        scheduler.sources().managed == scheduler.tasks,
        scheduler.kind() == scheduler.kind,
        scheduler.edges() == scheduler.edges,
        scheduler.books().ledger == scheduler.ledger(),
        scheduler.books().sources == scheduler.sources(),
        scheduler.books().edges == scheduler.edges,
{
}

/// A queued future is the one that was given, with its output converted.
pub(crate) proof fn law_queued_future_is_the_given_one<F, I, M>(fut: F, task: FutureObj<'static, M>) where
    F: SendableFuture + Future<Output = I>,
    I: 'static + Into<M>,
    M: 'static,

    requires
        resolves_into::<F, I, M>(fut, task),
    ensures
        call_ensures(boxed_into::<F, I, M>, (fut,), task),
{
}

/// A timer waits for the future that it was given and holds the message that it was given, and it is
/// the timer itself that is queued.
proof fn law_timer_is_what_it_holds<M: Sendable, D>(
    timer: Timer<M>,
    deadline: D,
    task: FutureObj<'static, M>,
) where D: SendableFuture + Future<Output = ()>
    ensures
        timer.waits_for(deadline) ==> (timer.inner matches Some((fut, _)) && call_ensures(
            boxed::<D, ()>,
            (deadline,),
            fut,
        )),
        runs_timer(timer, task) ==> call_ensures(boxed_timer::<M>, (timer,), task),
        match timer.inner {
            Some((fut, msg)) => timer.deadline() == Some(fut) && timer.message() == Some(msg),
            None => timer.deadline() is None && timer.message() is None,
        },
{
}

/// A queue for outbound messages sends to the channel that it holds, and counts its offers one by
/// one.
proof fn law_outbound_queue_is_what_it_holds<M>(queue: OutboundQueue<M>)
    ensures
        queue.channel() == queue.send,
        queue.offers() == queue.offers,
{
}

/// What is done with the managed futures that are left behind: they are polled over and over, as long
/// as one completes each time, and then once more, in the context of the caller. If that poll has
/// nothing yet, so says the answer, and it is over exactly if that poll finds none left.
pub proof fn law_leftovers_run_to_completion()
    ensures
        forall|tasks: &mut Tasks, cx: &mut Context<'_>, r: Poll<()>| #[trigger]
            call_ensures(poll_to_completion, (tasks, cx), r) ==> exists|trail: Seq<Tasks>|
                {
                    &&& #[trigger] Tasks::finishes_some(trail)
                    &&& trail.len() > 0
                    &&& trail[0] == *tasks
                    &&& match r {
                        Poll::Ready(()) => {
                            &&& trail.last().told(*cx, Poll::Ready(None), *final(tasks))
                            &&& final(tasks).numbers().len() == 0
                        },
                        Poll::Pending => trail.last().told(*cx, Poll::Pending, *final(tasks)),
                    }
                },
{
}

/// Where futures complete one after the other, each step is one poll that came back with the number of
/// one of them, and one fewer is left.
pub proof fn law_finishing_is_one_by_one(trail: Seq<Tasks>, i: int)
    requires
        Tasks::finishes_some(trail),
        0 <= i < trail.len() - 1,
    ensures
        exists|context: Context<'_>, number: usize| #[trigger]
            trail[i].told(context, Poll::Ready(Some(number)), trail[i + 1]),
        trail[i].numbers().len() == trail[i + 1].numbers().len() + 1,
{
    assert(trail[i].finishes_one(trail[i + 1]));
    let number = choose|number: usize| #[trigger]
        trail[i].said(Poll::Ready(Some(number)), trail[i + 1]);
    lemma_tasks_left(trail[i], Poll::Ready(Some(number)), trail[i + 1]);
}

/// A timer that is made waits for the deadline that it is given and holds the message that it is
/// given. A poll of it is one poll of the deadline, in the context of the caller: once that has
/// passed, the message is handed out and both are gone, and until then both stay.
pub proof fn law_timer<T, D>() where D: SendableFuture + Future<Output = ()>
    ensures
        forall|deadline: D, msg: T, timer: Timer<T>| #[trigger]
            call_ensures(Timer::<T>::new::<D>, (deadline, msg), timer) ==> {
                &&& timer.waits_for(deadline)
                &&& timer.message() == Some(msg)
            },
        forall|timer: &mut Timer<T>, cx: &mut Context<'_>, r: Poll<T>| #[trigger]
            call_ensures(Timer::<T>::poll, (timer, cx), r) ==> {
                &&& timer.deadline() is Some
                &&& went_on(timer.deadline()->0, *cx, final(timer).deadline())
                &&& match r {
                    Poll::Ready(msg) => {
                        &&& timer.message() == Some(msg)
                        &&& final(timer).deadline() is None
                        &&& final(timer).message() is None
                    },
                    Poll::Pending => {
                        &&& final(timer).deadline() is Some
                        &&& final(timer).message() == timer.message()
                    },
                }
            },
{
}

/// Every message that is broadcast is converted and offered, once, to everyone who listens to the
/// channel of the actor, however many messages there were before. The channel stays, and the offers
/// are counted one by one until the count starts over.
pub proof fn law_every_broadcast_is_offered<M, I>() where I: Into<M>
    ensures
        forall|queue: &mut OutboundQueue<M>, data: I| #[trigger]
            call_ensures(OutboundQueue::<M>::send::<I>, (queue, data), ()) ==> {
                &&& exists|msg: M, r: Result<usize, broadcast::error::SendError<M>>|
                    {
                        &&& call_ensures(<I as Into<M>>::into, (data,), msg)
                        &&& #[trigger] call_ensures(
                            broadcast::Sender::<M>::send,
                            (&queue.channel(), msg),
                            r,
                        )
                    }
                &&& final(queue).channel() == queue.channel()
                &&& queue.offers() < u64::MAX ==> final(queue).offers() == queue.offers() + 1
                &&& queue.offers() == u64::MAX ==> final(queue).offers() == 0
            },
        forall|send: broadcast::Sender<M>, queue: OutboundQueue<M>| #[trigger]
            call_ensures(OutboundQueue::<M>::new, (send,), queue) ==> {
                &&& queue.channel() == send
                &&& queue.offers() == 0
            },
{
    assert forall|queue: OutboundQueue<M>, data: I, after: OutboundQueue<M>| #[trigger]
        queue.relays(data, after) implies exists|
        msg: M,
        r: Result<usize, broadcast::error::SendError<M>>,
    |
        {
            &&& call_ensures(<I as Into<M>>::into, (data,), msg)
            &&& #[trigger] call_ensures(broadcast::Sender::<M>::send, (&queue.channel(), msg), r)
        } by {
        law_relaying(queue, data, after);
    }
}

/// Broadcasting from an actor sends the message to the queue of its kind, if the kind has one.
/// Everything else is left alone.
pub proof fn law_broadcasting<M, K: Outbound, I>() where I: Into<K::Output>
    ensures
        forall|scheduler: &mut Scheduler<M, K>, msg: I| #[trigger]
            call_ensures(Scheduler::<M, K>::broadcast::<I>, (scheduler, msg), ()) ==> {
                &&& scheduler.kind().outlet() is None <==> final(scheduler).kind().outlet() is None
                &&& scheduler.kind().outlet() is Some ==> scheduler.kind().outlet()->0.relays(
                    msg,
                    final(scheduler).kind().outlet()->0,
                )
                &&& final(scheduler).ledger() == scheduler.ledger()
                &&& final(scheduler).edges() == scheduler.edges()
                &&& final(scheduler).sources() == scheduler.sources()
            },
{
}

/// What is relayed is offered to the channel of the queue, converted.
pub proof fn law_relaying<M, I>(before: OutboundQueue<M>, data: I, after: OutboundQueue<M>) where
    I: Into<M>,

    requires
        before.relays(data, after),
    ensures
        exists|msg: M, r: Result<usize, broadcast::error::SendError<M>>|
            {
                &&& call_ensures(<I as Into<M>>::into, (data,), msg)
                &&& #[trigger] call_ensures(
                    broadcast::Sender::<M>::send,
                    (&before.channel(), msg),
                    r,
                )
            },
        after.channel() == before.channel(),
        before.offers() < u64::MAX ==> after.offers() == before.offers() + 1,
        before.offers() == u64::MAX ==> after.offers() == 0,
{
    let msg = choose|msg: M|
        call_ensures(<I as Into<M>>::into, (data,), msg) && #[trigger] before.offered(msg);
    assert(before.offered(msg));
}

/// A new scheduler has nothing to poll, is not asked to shut down, and keeps the kind that it is
/// given.
pub proof fn law_new_scheduler<M, K>()
    ensures
        forall|kind: K, scheduler: Scheduler<M, K>| #[trigger]
            call_ensures(Scheduler::<M, K>::new, (kind,), scheduler) ==> {
                &&& scheduler.ledger().streams == 0
                &&& scheduler.ledger().futures == 0
                &&& scheduler.ledger().managed == 0
                &&& scheduler.ledger().status == SchedulerStatus::Alive
                &&& scheduler.sources().streams.count() == 0
                &&& scheduler.sources().futures.tasks().len() == 0
                &&& scheduler.sources().managed.numbers().len() == 0
                &&& scheduler.kind() == kind
                &&& edge_count(scheduler.edges()) == 0
                &&& scheduler.edges().is_bare()
            },
{
}

/// Attaching a stream puts that stream in and counts one more, queueing a future puts that future in
/// and counts one more, and so does managing one. Nothing else changes.
pub proof fn law_sources_are_added<M: 'static, K, S, F, I>() where
    S: SendableFusedStream<I>,
    F: SendableFuture + Future<Output = I>,
    I: Into<M> + Sendable,

    ensures
        forall|scheduler: &mut Scheduler<M, K>, stream: S| #[trigger]
            call_ensures(Scheduler::<M, K>::attach_stream::<S, I>, (scheduler, stream), ()) ==> {
                let (before, after) = (scheduler.sources(), final(scheduler).sources());
                &&& before.streams.gained::<S, I>(stream, after.streams)
                &&& before.streams.count() < usize::MAX ==> after.streams.count()
                    == before.streams.count() + 1
                &&& after.futures == before.futures
                &&& after.managed == before.managed
                &&& final(scheduler).ledger() == (Ledger {
                    streams: scheduler.ledger().streams + 1,
                    ..scheduler.ledger()
                })
                &&& final(scheduler).kind() == scheduler.kind()
                &&& final(scheduler).edges() == scheduler.edges()
            },
        forall|scheduler: &mut Scheduler<M, K>, fut: F| #[trigger]
            call_ensures(Scheduler::<M, K>::queue_task::<F, I>, (scheduler, fut), ()) ==> {
                let (before, after) = (scheduler.sources(), final(scheduler).sources());
                &&& exists|task: FutureObj<'static, M>|
                    {
                        &&& #[trigger] resolves_into::<F, I, M>(fut, task)
                        &&& before.futures.gained(task, after.futures)
                        &&& after.futures.tasks() == before.futures.tasks().insert(task)
                    }
                &&& after.streams == before.streams
                &&& after.managed == before.managed
                &&& final(scheduler).ledger() == (Ledger {
                    futures: scheduler.ledger().futures + 1,
                    ..scheduler.ledger()
                })
                &&& final(scheduler).kind() == scheduler.kind()
                &&& final(scheduler).edges() == scheduler.edges()
            },
        forall|scheduler: &mut Scheduler<M, K>, fut: F| #[trigger]
            call_ensures(Scheduler::<M, K>::manage_future::<F, I>, (scheduler, fut), ()) ==> {
                let (before, after) = (scheduler.sources(), final(scheduler).sources());
                &&& before.managed.gained::<F, I>(fut, 0, after.managed)
                &&& after.streams == before.streams
                &&& after.futures == before.futures
                &&& final(scheduler).ledger() == (Ledger {
                    managed: scheduler.ledger().managed + 1,
                    ..scheduler.ledger()
                })
                &&& final(scheduler).kind() == scheduler.kind()
                &&& final(scheduler).edges() == scheduler.edges()
            },
{
}

/// Scheduling a message queues one future more, which is a timer that waits for the deadline and
/// holds the message, converted. Nothing else changes.
pub proof fn law_scheduling<M: Sendable, K, D, I>() where
    D: SendableFuture + Future<Output = ()>,
    I: Into<M>,

    ensures
        forall|scheduler: &mut Scheduler<M, K>, deadline: D, msg: I| #[trigger]
            call_ensures(Scheduler::<M, K>::schedule::<D, I>, (scheduler, deadline, msg), ()) ==> {
                let (before, after) = (scheduler.sources(), final(scheduler).sources());
                &&& exists|timer: Timer<M>, task: FutureObj<'static, M>|
                    {
                        &&& #[trigger] runs_timer(timer, task)
                        &&& timer.waits_for(deadline)
                        &&& timer.message() matches Some(held) && call_ensures(
                            <I as Into<M>>::into,
                            (msg,),
                            held,
                        )
                        &&& before.futures.gained(task, after.futures)
                        &&& after.futures.tasks() == before.futures.tasks().insert(task)
                    }
                &&& after.streams == before.streams
                &&& after.managed == before.managed
                &&& final(scheduler).ledger() == (Ledger {
                    futures: scheduler.ledger().futures + 1,
                    ..scheduler.ledger()
                })
                &&& final(scheduler).kind() == scheduler.kind()
                &&& final(scheduler).edges() == scheduler.edges()
            },
{
}

/// Asking to shut down changes nothing but how the actor shuts down, and makes it dead. When it
/// closes, its managed futures, all of them, are dropped exactly if it asked for that, and otherwise
/// handed over.
pub proof fn law_shutting_down<M, K>()
    ensures
        forall|scheduler: &mut Scheduler<M, K>| #[trigger]
            call_ensures(Scheduler::<M, K>::shutdown, (scheduler,), ()) ==> {
                &&& final(scheduler).ledger() == (Ledger {
                    status: SchedulerStatus::Marked,
                    ..scheduler.ledger()
                })
                &&& final(scheduler).kind() == scheduler.kind()
                &&& final(scheduler).edges() == scheduler.edges()
                &&& final(scheduler).sources() == scheduler.sources()
            },
        forall|scheduler: &mut Scheduler<M, K>| #[trigger]
            call_ensures(Scheduler::<M, K>::shutdown_and_finish, (scheduler,), ()) ==> {
                &&& final(scheduler).ledger() == (Ledger {
                    status: SchedulerStatus::MarkedToFinish,
                    ..scheduler.ledger()
                })
                &&& final(scheduler).kind() == scheduler.kind()
                &&& final(scheduler).edges() == scheduler.edges()
                &&& final(scheduler).sources() == scheduler.sources()
            },
        forall|scheduler: Scheduler<M, K>, rest: Option<Tasks>| #[trigger]
            call_ensures(Scheduler::<M, K>::finalize, (scheduler,), rest) ==> {
                &&& rest is None <==> scheduler.ledger().status == SchedulerStatus::Marked
                &&& rest is Some ==> rest == Some(scheduler.sources().managed)
            },
        forall|scheduler: Scheduler<M, K>, dead: bool| #[trigger]
            call_ensures(Scheduler::<M, K>::is_dead, (&scheduler,), dead) ==> (dead <==> {
                ||| scheduler.ledger().streams == 0 && scheduler.ledger().futures == 0
                ||| scheduler.ledger().status != SchedulerStatus::Alive
            }),
{
}

/// The kind of the actor is reached through its scheduler, which keeps everything else.
pub proof fn law_kind_is_reached<M, K>()
    ensures
        forall|scheduler: Scheduler<M, K>, kind: &K| #[trigger]
            call_ensures(<Scheduler<M, K> as Deref>::deref, (&scheduler,), kind) ==> *kind
                == scheduler.kind(),
        forall|scheduler: &mut Scheduler<M, K>, kind: &mut K| #[trigger]
            call_ensures(Scheduler::<M, K>::deref_mut, (scheduler,), kind) ==> {
                &&& *kind == scheduler.kind()
                &&& final(scheduler).kind() == *final(kind)
                &&& final(scheduler).ledger() == scheduler.ledger()
                &&& final(scheduler).edges() == scheduler.edges()
                &&& final(scheduler).sources() == scheduler.sources()
            },
{
}

/// Edges are added and removed, one for each type, and everything but the edges is left alone.
pub proof fn law_edges_are_added_and_removed<M, K, P: Sendable, C: 'static + Send>()
    ensures
        forall|scheduler: &mut Scheduler<M, K>, client: SinkClient<P>| #[trigger]
            call_ensures(Scheduler::<M, K>::add_edge::<P>, (scheduler, client), ()) ==> {
                &&& final(scheduler).edges().keeps(Some(client))
                &&& scheduler.edges().agrees_but_for::<SinkClient<P>>(final(scheduler).edges())
                &&& final(scheduler).ledger() == scheduler.ledger()
                &&& final(scheduler).kind() == scheduler.kind()
                &&& final(scheduler).sources() == scheduler.sources()
            },
        forall|scheduler: &mut Scheduler<M, K>| #[trigger]
            call_ensures(Scheduler::<M, K>::remove_edge::<P>, (scheduler,), ()) ==> {
                &&& final(scheduler).edges().keeps(None::<SinkClient<P>>)
                &&& scheduler.edges().agrees_but_for::<SinkClient<P>>(final(scheduler).edges())
                &&& final(scheduler).ledger() == scheduler.ledger()
                &&& final(scheduler).kind() == scheduler.kind()
                &&& final(scheduler).sources() == scheduler.sources()
            },
        forall|scheduler: &mut Scheduler<M, K>, container: C| #[trigger]
            call_ensures(Scheduler::<M, K>::add_multi_edge::<C>, (scheduler, container), ()) ==> {
                &&& final(scheduler).edges().keeps(Some(container))
                &&& scheduler.edges().agrees_but_for::<C>(final(scheduler).edges())
                &&& final(scheduler).ledger() == scheduler.ledger()
                &&& final(scheduler).kind() == scheduler.kind()
                &&& final(scheduler).sources() == scheduler.sources()
            },
        forall|scheduler: &mut Scheduler<M, K>| #[trigger]
            call_ensures(Scheduler::<M, K>::remove_multi_edge::<C>, (scheduler,), ()) ==> {
                &&& final(scheduler).edges().keeps(None::<C>)
                &&& scheduler.edges().agrees_but_for::<C>(final(scheduler).edges())
                &&& final(scheduler).ledger() == scheduler.ledger()
                &&& final(scheduler).kind() == scheduler.kind()
                &&& final(scheduler).sources() == scheduler.sources()
            },
{
}

/// An edge that is lent is the one that is kept for its type, and what it is changed into is what is
/// kept from then on. Where none is kept none is lent, and everything but the edges is left alone.
pub proof fn law_edges_are_lent<M, K, P: Sendable, C: 'static + Send>()
    ensures
        forall|scheduler: &mut Scheduler<M, K>, client: Option<&mut SinkClient<P>>| #[trigger]
            call_ensures(Scheduler::<M, K>::get_edge_mut::<P>, (scheduler,), client) ==> {
                &&& match client {
                    Some(value) => {
                        &&& scheduler.edges().keeps(Some(*value))
                        &&& final(scheduler).edges().keeps(Some(*final(value)))
                    },
                    None => {
                        &&& scheduler.edges().keeps(None::<SinkClient<P>>)
                        &&& *final(scheduler) == *scheduler
                    },
                }
                &&& scheduler.edges().agrees_but_for::<SinkClient<P>>(final(scheduler).edges())
                &&& final(scheduler).ledger() == scheduler.ledger()
                &&& final(scheduler).kind() == scheduler.kind()
                &&& final(scheduler).sources() == scheduler.sources()
            },
        forall|scheduler: &mut Scheduler<M, K>, container: Option<&mut C>| #[trigger]
            call_ensures(Scheduler::<M, K>::get_multi_edge_mut::<C>, (scheduler,), container) ==> {
                &&& match container {
                    Some(value) => {
                        &&& scheduler.edges().keeps(Some(*value))
                        &&& final(scheduler).edges().keeps(Some(*final(value)))
                    },
                    None => {
                        &&& scheduler.edges().keeps(None::<C>)
                        &&& *final(scheduler) == *scheduler
                    },
                }
                &&& scheduler.edges().agrees_but_for::<C>(final(scheduler).edges())
                &&& final(scheduler).ledger() == scheduler.ledger()
                &&& final(scheduler).kind() == scheduler.kind()
                &&& final(scheduler).sources() == scheduler.sources()
            },
{
}

/// A scheduler can be polled at any time, and whatever it keeps, it takes on more: only a stream or a
/// queued future that could not be counted any more is ruled out, and no managed future is.
pub proof fn law_scheduler_takes_on_more<M: Sendable, K, S, F, I, D>() where
    S: SendableFusedStream<I>,
    F: SendableFuture + Future<Output = I>,
    I: Into<M> + Sendable,
    D: SendableFuture + Future<Output = ()>,

    ensures
        forall|scheduler: &mut Scheduler<M, K>, cx: &mut Context<'_>| #[trigger]
            call_requires(Scheduler::<M, K>::poll_next, (scheduler, cx)),
        forall|scheduler: &mut Scheduler<M, K>, stream: S|
            scheduler.ledger().streams < usize::MAX ==> #[trigger] call_requires(
                Scheduler::<M, K>::attach_stream::<S, I>,
                (scheduler, stream),
            ),
        forall|scheduler: &mut Scheduler<M, K>, fut: F|
            scheduler.ledger().futures < usize::MAX ==> #[trigger] call_requires(
                Scheduler::<M, K>::queue_task::<F, I>,
                (scheduler, fut),
            ),
        forall|scheduler: &mut Scheduler<M, K>, deadline: D, msg: I|
            scheduler.ledger().futures < usize::MAX ==> #[trigger] call_requires(
                Scheduler::<M, K>::schedule::<D, I>,
                (scheduler, deadline, msg),
            ),
        forall|scheduler: &mut Scheduler<M, K>, fut: F| #[trigger]
            call_requires(Scheduler::<M, K>::manage_future::<F, I>, (scheduler, fut)),
        forall|timer: &mut Timer<M>, cx: &mut Context<'_>|
            timer.message() is Some ==> #[trigger] call_requires(
                Timer::<M>::poll,
                (timer, cx),
            ),
        forall|tasks: &mut Tasks, cx: &mut Context<'_>| #[trigger]
            call_requires(poll_to_completion, (tasks, cx)),
{
}

} // verus!
