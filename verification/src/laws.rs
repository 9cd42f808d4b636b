//! What holds of every actor, whatever its streams, futures and messages are.

use std::task::Context;
use std::task::Poll;

use futures::task::FutureObj;
use tokio::sync::mpsc::UnboundedReceiver;
use vstd::prelude::*;

use crate::compat::Sendable;
use crate::edges::distinct;
use crate::edges::edge_count;
use crate::edges::Edges;
use crate::joint::JointActor;
use crate::pollset::fulfils;
use crate::pollset::lemma_futures_left;
use crate::pollset::Source;
use crate::runner::Outcome;
use crate::scheduler::lemma_run_keeps_balance;
use crate::scheduler::runs_timer;
use crate::scheduler::Books;
use crate::scheduler::Event;
use crate::scheduler::Ledger;
use crate::scheduler::Outbound;
use crate::scheduler::Scheduler;
use crate::scheduler::SchedulerStatus;
use crate::scheduler::Sources;
use crate::scheduler::Timer;
use crate::sink::SinkActor;
use crate::sink::SinkClient;
use crate::stream::StreamActor;
use crate::ActorKind;

verus! {

/// An actor that is dead, for example because it asked to shut down, gets no other message: nothing
/// happens before it learns that there will be none, however many messages are on their way.
pub proof fn law_dead_actor_gets_no_message<M>(ledger: Ledger, events: Seq<Event<M>>)
    requires
        ledger.is_dead(),
        ledger.unfolds(events),
    ensures
        events.len() == 0,
        ledger.after_all(events) == ledger,
        ledger.answer(events) == Poll::Ready(None::<M>),
    decreases events.len(),
{
    if events.len() > 0 {
        law_dead_actor_gets_no_message(ledger, events.drop_last());
    }
}

/// An actor that asked to shut down is dead from then on, and so is one with no source of messages.
/// Any other actor is alive.
pub proof fn law_death(ledger: Ledger)
    ensures
        (Ledger { status: SchedulerStatus::Marked, ..ledger }).is_dead(),
        (Ledger { status: SchedulerStatus::MarkedToFinish, ..ledger }).is_dead(),
        (Ledger { streams: 0, futures: 0, ..ledger }).is_dead(),
        ledger.status == SchedulerStatus::Alive && ledger.streams + ledger.futures > 0
            ==> !ledger.is_dead(),
{
}

/// The events that have to do with messages, which are all but those of managed futures.
pub open spec fn without_managed<M>(events: Seq<Event<M>>) -> Seq<Event<M>>
    decreases events.len(),
{
    if events.len() == 0 {
        events
    } else if events.last() is Finished {
        without_managed(events.drop_last())
    } else {
        without_managed(events.drop_last()).push(events.last())
    }
}

/// Managed futures neither keep an actor alive nor let it die, and they make no difference to its
/// messages: whatever can happen to an actor, with the managed futures left out, can happen to it
/// with any other number of managed futures, and it is answered the same.
pub proof fn law_managed_futures_do_not_matter<M>(
    ledger: Ledger,
    managed: nat,
    events: Seq<Event<M>>,
)
    requires
        ledger.unfolds(events),
    ensures
        (Ledger { managed, ..ledger }).is_dead() == ledger.is_dead(),
        (Ledger { managed, ..ledger }).unfolds(without_managed(events)),
        (Ledger { managed, ..ledger }).answer(without_managed(events)) == ledger.answer(events),
{
    lemma_without_managed(ledger, managed, events);
}

proof fn lemma_without_managed<M>(ledger: Ledger, managed: nat, events: Seq<Event<M>>)
    requires
        ledger.unfolds(events),
    ensures
        ({
            let other = Ledger { managed, ..ledger };
            let plain = without_managed(events);
            &&& other.unfolds(plain)
            &&& other.after_all(plain) == (Ledger { managed, ..ledger.after_all(events) })
            &&& events.len() > 0 && events.last().yields() is Some ==> plain.len() > 0
                && plain.last() == events.last()
            &&& (events.len() > 0 ==> events.last().yields() is None) ==> (plain.len() > 0
                ==> plain.last().yields() is None)
        }),
    decreases events.len(),
{
    if events.len() > 0 {
        let earlier = events.drop_last();
        lemma_without_managed(ledger, managed, earlier);
        if !(events.last() is Finished) {
            let plain = without_managed(events);
            assert(plain.drop_last() == without_managed(earlier));
        }
    }
}

/// Attaching a stream or queueing a future keeps an actor alive, or brings it back, as long as it
/// did not ask to shut down.
pub proof fn law_new_source_keeps_alive(ledger: Ledger)
    requires
        ledger.status == SchedulerStatus::Alive,
    ensures
        !(Ledger { streams: ledger.streams + 1, ..ledger }).is_dead(),
        !(Ledger { futures: ledger.futures + 1, ..ledger }).is_dead(),
{
}

/// Once an actor asked to shut down, or is dead for another reason, the next thing that it does
/// after the message at hand is to clean up.
pub proof fn law_dead_actor_cleans_up<M>(
    ledger: Ledger,
    events: Seq<Event<M>>,
    next: Option<M>,
)
    requires
        ledger.is_dead(),
        ledger.unfolds(events),
        ledger.answer(events) == Poll::Ready(next),
    ensures
        Outcome::<M>::Processed.leads_to() is Receive,
        Outcome::Received(next).leads_to() is Finalize,
{
    law_dead_actor_gets_no_message(ledger, events);
}

/// Every message that an actor gets came out of one of its own streams or futures, and was the first
/// to do so.
pub proof fn law_messages_come_from_sources<M: Sendable>(
    ledger: Ledger,
    events: Seq<Event<M>>,
    trail: Seq<Sources<M>>,
    msg: M,
)
    requires
        ledger.unfolds(events),
        Sources::yields_all(events, trail),
        ledger.answer(events) == Poll::Ready(Some(msg)),
    ensures
        events.len() > 0,
        forall|i: int| 0 <= i < events.len() - 1 ==> (#[trigger] events[i]).yields() is None,
        ({
            let before = trail[events.len() - 1];
            let after = trail.last();
            ||| before.streams.said(Poll::Ready(Some(msg)), after.streams)
            ||| before.futures.said(Poll::Ready(Some(msg)), after.futures)
        }),
{
    lemma_only_last_yields(ledger, events);
    assert(trail[events.len() - 1].yields(events[events.len() - 1], trail.last()));
}

/// An actor is told that there will be no other message exactly if it is dead and none came out of
/// its sources first, and it is kept waiting only while it is alive.
pub proof fn law_closes_exactly_when_dead<M>(ledger: Ledger, events: Seq<Event<M>>)
    requires
        ledger.unfolds(events),
    ensures
        ledger.answer(events) == Poll::Ready(None::<M>) <==> {
            &&& ledger.after_all(events).is_dead()
            &&& forall|i: int| 0 <= i < events.len() ==> (#[trigger] events[i]).yields() is None
        },
        ledger.answer(events) is Pending ==> !ledger.after_all(events).is_dead(),
{
    lemma_only_last_yields(ledger, events);
}

/// While an actor waits for a message, its sources only become fewer, and none but the future that
/// yielded the message is crossed off the list of futures. Everything that happens in the meantime
/// uses up a stream or a managed future. It does not change how the actor shuts down.
pub proof fn law_waiting_uses_up_sources<M>(ledger: Ledger, events: Seq<Event<M>>)
    requires
        ledger.unfolds(events),
    ensures
        ledger.after_all(events).streams <= ledger.streams,
        ledger.after_all(events).managed <= ledger.managed,
        ledger.after_all(events).futures + (if events.len() > 0 && events.last() is Resolved {
            1nat
        } else {
            0
        }) == ledger.futures,
        ledger.after_all(events).status == ledger.status,
        ledger.after_all(events).streams + ledger.after_all(events).managed + events.len()
            == ledger.streams + ledger.managed + (if events.len() > 0
            && events.last().yields() is Some {
            1nat
        } else {
            0
        }),
    decreases events.len(),
{
    if events.len() > 0 {
        law_waiting_uses_up_sources(ledger, events.drop_last());
    }
}

/// An actor that did not ask to shut down is told that there will be no other message only once
/// none of its streams and none of its queued futures is left.
pub proof fn law_closes_only_when_exhausted<M: Sendable>(
    books: Books<M>,
    events: Seq<Event<M>>,
    trail: Seq<Sources<M>>,
)
    requires
        books.balanced(),
        books.runs(events, trail),
        books.ledger.status == SchedulerStatus::Alive,
        books.ledger.answer(events) == Poll::Ready(None::<M>),
    ensures
        trail.last().exhausted(),
{
    lemma_run_keeps_balance(books, events, trail);
    law_waiting_uses_up_sources(books.ledger, events);
}

/// An actor whose streams have all closed and that has no queued futures left is collected: it gets
/// no other message, its sources stay as they are, and it is told that there will be none unless the
/// streams, which are asked for the last time, leave the question open. Once they have said for each
/// of the streams that are counted that it has closed, they are not asked again.
pub proof fn law_exhausted_actor_is_collected<M: Sendable>(
    books: Books<M>,
    events: Seq<Event<M>>,
    trail: Seq<Sources<M>>,
    rest: Sources<M>,
)
    requires
        books.balanced(),
        books.sources.exhausted(),
        books.runs(events, trail),
        books.ledger.answer(events) is Pending ==> trail.last().idles(
            books.ledger.after_all(events),
            rest,
        ),
    ensures
        trail.last().exhausted(),
        books.ledger.answer(events) == Poll::Ready(None::<M>) || {
            &&& books.ledger.answer(events) is Pending
            &&& books.ledger.after_all(events).streams > 0
            &&& trail.last().streams.said(Poll::Pending, rest.streams)
        },
{
    lemma_run_keeps_balance(books, events, trail);
}

/// A message that is scheduled is outstanding until it arrives: while the scheduler waits, its timer
/// stays among the queued futures, or is the one that yields, and then it is that very message which
/// the actor gets. An actor that did not ask to shut down is not told that there will be no other
/// message before that.
pub proof fn law_scheduled_message_arrives<M: Sendable>(
    books: Books<M>,
    events: Seq<Event<M>>,
    trail: Seq<Sources<M>>,
    timer: Timer<M>,
    task: FutureObj<'static, M>,
)
    requires
        books.balanced(),
        books.runs(events, trail),
        runs_timer(timer, task),
        books.sources.futures.tasks().contains(task),
    ensures
        ({
            let before = books.sources.futures.tasks().count(task);
            let after = trail.last().futures.tasks().count(task);
            ||| after == before
            ||| {
                &&& after + 1 == before
                &&& timer.message() is Some
                &&& books.ledger.answer(events) == Poll::Ready(timer.message())
            }
        }),
        books.ledger.status == SchedulerStatus::Alive ==> books.ledger.answer(events)
            != Poll::Ready(None::<M>),
{
    lemma_run_keeps_balance(books, events, trail);
    law_waiting_uses_up_sources(books.ledger, events);
    lemma_outstanding(books, events, trail, timer, task);
}

proof fn lemma_outstanding<M: Sendable>(
    books: Books<M>,
    events: Seq<Event<M>>,
    trail: Seq<Sources<M>>,
    timer: Timer<M>,
    task: FutureObj<'static, M>,
)
    requires
        books.runs(events, trail),
        runs_timer(timer, task),
    ensures
        ({
            let before = books.sources.futures.tasks().count(task);
            let after = trail.last().futures.tasks().count(task);
            ||| after == before
            ||| after + 1 == before && events.len() > 0 && events.last() is Resolved
                && events.last().yields() == timer.message()
        }),
        (events.len() > 0 ==> !(events.last() is Resolved)) ==> trail.last().futures.tasks()
            == books.sources.futures.tasks(),
    decreases events.len(),
{
    if events.len() > 0 {
        let earlier = events.drop_last();
        let shorter = trail.drop_last();
        assert forall|i: int| 0 <= i < earlier.len() implies shorter[i].yields(
            #[trigger] earlier[i],
            shorter[i + 1],
        ) by {
            assert(trail[i].yields(events[i], trail[i + 1]));
        }
        assert(books.runs(earlier, shorter));
        lemma_outstanding(books, earlier, shorter, timer, task);
        let (a, b) = (trail[events.len() - 1], trail.last());
        assert(a.yields(events[events.len() - 1], b));
        assert(shorter.last() == a);
        assert(earlier.len() > 0 ==> !(earlier.last() is Resolved));
        if a.futures.said(Poll::Pending, b.futures) {
            lemma_futures_left(a.futures, Poll::Pending, b.futures);
        }
        if let Event::Resolved(msg) = events.last() {
            lemma_futures_left(a.futures, Poll::Ready(Some(msg)), b.futures);
            let done = choose|done: FutureObj<'static, M>|
                {
                    &&& #[trigger] a.futures.tasks().contains(done)
                    &&& b.futures.tasks() == a.futures.tasks().remove(done)
                    &&& fulfils(done, msg)
                };
            if done == task {
                assert(timer.message() == Some(msg));
            }
        }
    }
}

/// A stream that yielded its first `None` is never polled again, however often the scheduler polls
/// its sources: from then on it is gone, and only `None` comes in its place.
pub proof fn law_closed_stream_is_not_polled_again<S, I>(
    trail: Seq<Source<S>>,
    polls: Seq<Poll<Option<I>>>,
    closed: int,
    later: int,
)
    requires
        trail.len() == polls.len() + 1,
        forall|i: int|
            0 <= i < polls.len() ==> trail[i].follows(#[trigger] polls[i], trail[i + 1]),
        0 <= closed < later < polls.len(),
        polls[closed] == Poll::Ready(None::<I>),
    ensures
        trail[later].stream() is None,
        polls[later] == Poll::Ready(None::<I>),
    decreases later - closed,
{
    assert(trail[closed].follows(polls[closed], trail[closed + 1]));
    if later > closed + 1 {
        law_closed_stream_is_not_polled_again(trail, polls, closed, later - 1);
        assert(trail[later - 1].follows(polls[later - 1], trail[later]));
    }
    assert(trail[later].follows(polls[later], trail[later + 1]));
}

/* ------ One poll ------ */

/// While an actor is kept waiting, every source that could come up with something has been asked, in
/// the context of the caller, and has said that there is nothing yet: the streams if there is one, the
/// queued futures if there is one, and the managed futures if there is one, each on its own account
/// and whatever the others are. So there is always something that wakes the actor up.
pub proof fn law_waiting_asks_every_source<M: Sendable, K>()
    ensures
        forall|scheduler: &mut Scheduler<M, K>, cx: &mut Context<'_>, next: Poll<Option<M>>|
            #[trigger] call_ensures(Scheduler::<M, K>::poll_next, (scheduler, cx), next)
                && next is Pending ==> exists|events: Seq<Event<M>>, trail: Seq<Sources<M>>|
                {
                    &&& #[trigger] scheduler.books().runs(events, trail)
                    &&& final(scheduler).ledger().streams > 0 ==> trail.last().streams.told(
                        *cx,
                        Poll::Pending,
                        final(scheduler).sources().streams,
                    )
                    &&& final(scheduler).ledger().futures > 0 ==> trail.last().futures.told(
                        *cx,
                        Poll::Pending,
                        final(scheduler).sources().futures,
                    )
                    &&& final(scheduler).ledger().managed > 0 ==> trail.last().managed.told(
                        *cx,
                        Poll::Pending,
                        final(scheduler).sources().managed,
                    )
                },
{
}

/// What one poll answers: a message is one that a poll of the streams or of the queued futures came
/// back with, as the last thing that happened. That there will be none is said exactly of an actor
/// that asked to shut down or has neither streams nor queued futures, and any other one is kept
/// waiting. How the actor shuts down, its kind and its edges are left alone.
pub proof fn law_one_poll<M: Sendable, K>()
    ensures
        forall|scheduler: &mut Scheduler<M, K>, cx: &mut Context<'_>, next: Poll<Option<M>>|
            #[trigger] call_ensures(Scheduler::<M, K>::poll_next, (scheduler, cx), next) ==> {
                let ledger = final(scheduler).ledger();
                let over = {
                    ||| ledger.status != SchedulerStatus::Alive
                    ||| ledger.streams == 0 && ledger.futures == 0
                };
                &&& match next {
                    Poll::Ready(Some(msg)) => exists|
                        events: Seq<Event<M>>,
                        trail: Seq<Sources<M>>,
                    |
                        {
                            &&& #[trigger] scheduler.books().runs(events, trail)
                            &&& events.len() > 0
                            &&& trail.last() == final(scheduler).sources()
                            &&& {
                                ||| trail[events.len() - 1].streams.said(
                                    Poll::Ready(Some(msg)),
                                    final(scheduler).sources().streams,
                                )
                                ||| trail[events.len() - 1].futures.said(
                                    Poll::Ready(Some(msg)),
                                    final(scheduler).sources().futures,
                                )
                            }
                        },
                    Poll::Ready(None) => over,
                    Poll::Pending => !over,
                }
                &&& ledger.status == scheduler.ledger().status
                &&& final(scheduler).kind() == scheduler.kind()
                &&& final(scheduler).edges() == scheduler.edges()
            },
        forall|scheduler: &mut Scheduler<M, K>, cx: &mut Context<'_>, next: Poll<Option<M>>|
            #[trigger] call_ensures(Scheduler::<M, K>::poll_next, (scheduler, cx), next) && {
                ||| scheduler.ledger().status != SchedulerStatus::Alive
                ||| scheduler.ledger().streams == 0 && scheduler.ledger().futures == 0
            } ==> next == Poll::Ready(None::<M>) && *final(scheduler) == *scheduler,
{
    assert forall|books: Books<M>, events: Seq<Event<M>>, trail: Seq<Sources<M>>|
        #[trigger] books.runs(events, trail) && (books.ledger.answer(events) matches Poll::Ready(
            Some(_),
        )) implies events.len() > 0 && {
        ||| trail[events.len() - 1].streams.said(books.ledger.answer(events), trail.last().streams)
        ||| trail[events.len() - 1].futures.said(books.ledger.answer(events), trail.last().futures)
    } by {
        if let Poll::Ready(Some(msg)) = books.ledger.answer(events) {
            law_messages_come_from_sources(books.ledger, events, trail, msg);
        }
    }
}

/// What can happen while an actor waits, step by step: each time the actor is alive, something is
/// counted where the event comes from, a poll there came back with that event, and the other sources
/// were left as they are or had nothing yet. Only the last event yields a message.
pub proof fn law_run_step_by_step<M: Sendable>(
    books: Books<M>,
    events: Seq<Event<M>>,
    trail: Seq<Sources<M>>,
    i: int,
)
    requires
        books.runs(events, trail),
        0 <= i < events.len(),
    ensures
        trail.len() == events.len() + 1,
        trail[0] == books.sources,
        i < events.len() - 1 ==> events[i].yields() is None,
        ({
            let now = books.ledger.after_all(events.take(i));
            &&& now.status == SchedulerStatus::Alive
            &&& now.streams + now.futures > 0
            &&& books.ledger.after_all(events.take(i + 1)) == now.after(events[i])
            &&& (events[i] is Arrived || events[i] is Closed) ==> now.streams > 0
            &&& events[i] is Resolved ==> now.futures > 0
            &&& events[i] is Finished ==> now.managed > 0
        }),
        match events[i] {
            Event::Arrived(msg) => exists|context: Context<'_>| #[trigger]
                trail[i].streams.told(context, Poll::Ready(Some(msg)), trail[i + 1].streams),
            Event::Closed => exists|context: Context<'_>| #[trigger]
                trail[i].streams.told(context, Poll::Ready(None), trail[i + 1].streams),
            _ => trail[i + 1].streams == trail[i].streams || exists|context: Context<'_>| #[trigger]
                trail[i].streams.told(context, Poll::Pending, trail[i + 1].streams),
        },
        match events[i] {
            Event::Resolved(msg) => exists|context: Context<'_>| #[trigger]
                trail[i].futures.told(context, Poll::Ready(Some(msg)), trail[i + 1].futures),
            _ => trail[i + 1].futures == trail[i].futures || exists|context: Context<'_>| #[trigger]
                trail[i].futures.told(context, Poll::Pending, trail[i + 1].futures),
        },
        match events[i] {
            Event::Finished => exists|context: Context<'_>, number: usize| #[trigger]
                trail[i].managed.told(context, Poll::Ready(Some(number)), trail[i + 1].managed),
            _ => trail[i + 1].managed == trail[i].managed || exists|context: Context<'_>| #[trigger]
                trail[i].managed.told(context, Poll::Pending, trail[i + 1].managed),
        },
{
    lemma_only_last_yields(books.ledger, events);
    lemma_unfolds_so_far(books.ledger, events, i + 1);
    let so_far = events.take(i + 1);
    assert(so_far.drop_last() == events.take(i));
    assert(so_far.last() == events[i]);
    let now = books.ledger.after_all(events.take(i));
    assert(!now.is_dead() && now.admits(events[i]));
    assert(books.ledger.after_all(so_far) == now.after(events[i]));
    assert(trail[i].yields(events[i], trail[i + 1]));
}

proof fn lemma_unfolds_so_far<M>(ledger: Ledger, events: Seq<Event<M>>, i: int)
    requires
        ledger.unfolds(events),
        0 <= i <= events.len(),
    ensures
        ledger.unfolds(events.take(i)),
    decreases events.len(),
{
    if i < events.len() {
        lemma_unfolds_so_far(ledger, events.drop_last(), i);
        assert(events.drop_last().take(i) == events.take(i));
    } else {
        assert(events.take(i) == events);
    }
}

/// What an event does to the ledger: one stream fewer if the streams have closed, one queued future
/// fewer if one resolved, one managed future fewer if one completed, and nothing else. Exactly the
/// messages of streams and of queued futures are yielded.
pub proof fn law_events<M>(ledger: Ledger, msg: M)
    ensures
        ledger.after(Event::Arrived(msg)) == ledger,
        ledger.streams > 0 ==> ledger.after(Event::<M>::Closed).streams + 1 == ledger.streams,
        ledger.after(Event::<M>::Closed).futures == ledger.futures,
        ledger.after(Event::<M>::Closed).managed == ledger.managed,
        ledger.after(Event::<M>::Closed).status == ledger.status,
        ledger.futures > 0 ==> ledger.after(Event::Resolved(msg)).futures + 1 == ledger.futures,
        ledger.after(Event::Resolved(msg)).streams == ledger.streams,
        ledger.after(Event::Resolved(msg)).managed == ledger.managed,
        ledger.after(Event::Resolved(msg)).status == ledger.status,
        ledger.managed > 0 ==> ledger.after(Event::<M>::Finished).managed + 1 == ledger.managed,
        ledger.after(Event::<M>::Finished).streams == ledger.streams,
        ledger.after(Event::<M>::Finished).futures == ledger.futures,
        ledger.after(Event::<M>::Finished).status == ledger.status,
        Event::Arrived(msg).yields() == Some(msg),
        Event::Resolved(msg).yields() == Some(msg),
        Event::<M>::Closed.yields() is None,
        Event::<M>::Finished.yields() is None,
{
}

/// While nothing comes, each source that counts for something has been asked, and each other one has
/// been left as it is.
pub proof fn law_idling<M: Sendable>(before: Sources<M>, ledger: Ledger, after: Sources<M>)
    requires
        before.idles(ledger, after),
    ensures
        ledger.streams > 0 ==> exists|context: Context<'_>| #[trigger]
            before.streams.told(context, Poll::Pending, after.streams),
        ledger.futures > 0 ==> exists|context: Context<'_>| #[trigger]
            before.futures.told(context, Poll::Pending, after.futures),
        ledger.managed > 0 ==> exists|context: Context<'_>| #[trigger]
            before.managed.told(context, Poll::Pending, after.managed),
        ledger.streams == 0 ==> after.streams == before.streams,
        ledger.futures == 0 ==> after.futures == before.futures,
        ledger.managed == 0 ==> after.managed == before.managed,
{
}

/// The books are balanced exactly if every stream that is left is counted, and if as many futures are
/// counted as there are.
pub proof fn law_balance<M>(books: Books<M>)
    ensures
        books.balanced() <==> {
            &&& books.sources.streams.count() <= books.ledger.streams
            &&& books.sources.futures.tasks().len() == books.ledger.futures
            &&& books.sources.managed.numbers().len() == books.ledger.managed
        },
        books.sources.exhausted() <==> {
            &&& books.sources.streams.count() == 0
            &&& books.sources.futures.tasks().len() == 0
        },
{
}

/* ------ Over the life of an actor ------ */

/// Something that is done with the scheduler of an actor.
pub enum Move<M> {
    /// A stream was attached.
    Attached,
    /// A future that yields a message was queued, or a message was scheduled.
    Queued,
    /// A future was given to be managed.
    Managed,
    /// The actor asked to shut down.
    Marked(SchedulerStatus),
    /// The scheduler was polled for a message, and these events happened.
    Polled(Seq<Event<M>>),
}

impl<M> Move<M> {
    /// If this can be done with a scheduler.
    pub open spec fn possible(self, ledger: Ledger) -> bool {
        match self {
            Move::Marked(status) => status != SchedulerStatus::Alive,
            Move::Polled(events) => ledger.unfolds(events),
            _ => true,
        }
    }

    /// What this does to the ledger.
    pub open spec fn leads_to(self, ledger: Ledger) -> Ledger {
        match self {
            Move::Attached => Ledger { streams: ledger.streams + 1, ..ledger },
            Move::Queued => Ledger { futures: ledger.futures + 1, ..ledger },
            Move::Managed => Ledger { managed: ledger.managed + 1, ..ledger },
            Move::Marked(status) => Ledger { status, ..ledger },
            Move::Polled(events) => ledger.after_all(events),
        }
    }

    /// The message that the actor got, if it did.
    pub open spec fn got(self, ledger: Ledger) -> Seq<M> {
        match self {
            Move::Polled(events) => match ledger.answer(events) {
                Poll::Ready(Some(msg)) => seq![msg],
                _ => Seq::empty(),
            },
            _ => Seq::empty(),
        }
    }

    /// The messages that came out of the sources.
    pub open spec fn came(self) -> Seq<M> {
        match self {
            Move::Polled(events) => messages(events),
            _ => Seq::empty(),
        }
    }
}

/// The messages that these events yield, in order.
pub open spec fn messages<M>(events: Seq<Event<M>>) -> Seq<M>
    decreases events.len(),
{
    if events.len() == 0 {
        Seq::empty()
    } else {
        match events.last().yields() {
            Some(msg) => messages(events.drop_last()).push(msg),
            None => messages(events.drop_last()),
        }
    }
}

/// The ledger after all of these moves.
pub open spec fn ledger_after<M>(ledger: Ledger, moves: Seq<Move<M>>) -> Ledger
    decreases moves.len(),
{
    if moves.len() == 0 {
        ledger
    } else {
        moves.last().leads_to(ledger_after(ledger, moves.drop_last()))
    }
}

/// If these moves can be made one after the other.
pub open spec fn is_history<M>(ledger: Ledger, moves: Seq<Move<M>>) -> bool
    decreases moves.len(),
{
    moves.len() > 0 ==> {
        &&& is_history(ledger, moves.drop_last())
        &&& moves.last().possible(ledger_after(ledger, moves.drop_last()))
    }
}

/// The messages that the actor got over these moves, in order.
pub open spec fn all_got<M>(ledger: Ledger, moves: Seq<Move<M>>) -> Seq<M>
    decreases moves.len(),
{
    if moves.len() == 0 {
        Seq::empty()
    } else {
        all_got(ledger, moves.drop_last()) + moves.last().got(
            ledger_after(ledger, moves.drop_last()),
        )
    }
}

/// The messages that came out of the sources over these moves, in order.
pub open spec fn all_came<M>(moves: Seq<Move<M>>) -> Seq<M>
    decreases moves.len(),
{
    if moves.len() == 0 {
        Seq::empty()
    } else {
        all_came(moves.drop_last()) + moves.last().came()
    }
}

/// The number of futures that were queued.
pub open spec fn queued<M>(moves: Seq<Move<M>>) -> nat
    decreases moves.len(),
{
    if moves.len() == 0 {
        0
    } else {
        queued(moves.drop_last()) + (if moves.last() is Queued {
            1nat
        } else {
            0
        })
    }
}

/// The number of messages that the actor got out of queued futures.
pub open spec fn resolved<M>(moves: Seq<Move<M>>) -> nat
    decreases moves.len(),
{
    if moves.len() == 0 {
        0
    } else {
        resolved(moves.drop_last()) + (match moves.last() {
            Move::Polled(events) => if events.len() > 0 && events.last() is Resolved {
                1nat
            } else {
                0
            },
            _ => 0,
        })
    }
}

/// Over its whole life, an actor gets exactly the messages that come out of its sources, in the order
/// in which they do: none is lost, doubled or made up.
pub proof fn law_gets_what_comes<M>(ledger: Ledger, moves: Seq<Move<M>>)
    requires
        is_history(ledger, moves),
    ensures
        all_got(ledger, moves) == all_came(moves),
    decreases moves.len(),
{
    if moves.len() > 0 {
        let earlier = moves.drop_last();
        law_gets_what_comes(ledger, earlier);
        if let Move::Polled(events) = moves.last() {
            lemma_messages(ledger_after(ledger, earlier), events);
        }
    }
}

/// Every future that was queued and every message that was scheduled yields at most one message: over
/// a whole life, those that did and those that are left add up to those that there were. Until they
/// all have, an actor that did not ask to shut down is not told that there will be no other message.
pub proof fn law_queued_futures_add_up<M>(ledger: Ledger, moves: Seq<Move<M>>)
    requires
        is_history(ledger, moves),
    ensures
        ledger.futures + queued(moves) == resolved(moves) + ledger_after(ledger, moves).futures,
        forall|events: Seq<Event<M>>| #[trigger]
            ledger_after(ledger, moves).unfolds(events) && ledger_after(ledger, moves).answer(events)
                == Poll::Ready(None::<M>) && ledger_after(ledger, moves).status
                == SchedulerStatus::Alive ==> ledger.futures + queued(moves) == resolved(moves),
    decreases moves.len(),
{
    if moves.len() > 0 {
        let earlier = moves.drop_last();
        law_queued_futures_add_up(ledger, earlier);
        if let Move::Polled(events) = moves.last() {
            law_waiting_uses_up_sources(ledger_after(ledger, earlier), events);
        }
    }
    let now = ledger_after(ledger, moves);
    assert forall|events: Seq<Event<M>>| #[trigger]
        now.unfolds(events) && now.answer(events) == Poll::Ready(None::<M>) && now.status
            == SchedulerStatus::Alive implies ledger.futures + queued(moves) == resolved(moves) by {
        law_waiting_uses_up_sources(now, events);
    }
}

/// An actor that asked to shut down never gets another message.
pub proof fn law_shutdown_is_for_good<M>(ledger: Ledger, moves: Seq<Move<M>>)
    requires
        ledger.status != SchedulerStatus::Alive,
        is_history(ledger, moves),
    ensures
        ledger_after(ledger, moves).is_dead(),
        all_got(ledger, moves) == Seq::<M>::empty(),
    decreases moves.len(),
{
    if moves.len() > 0 {
        let earlier = moves.drop_last();
        law_shutdown_is_for_good(ledger, earlier);
        lemma_status_stays_marked(ledger, moves);
        lemma_status_stays_marked(ledger, earlier);
        if let Move::Polled(events) = moves.last() {
            law_dead_actor_gets_no_message(ledger_after(ledger, earlier), events);
        }
    }
}

proof fn lemma_status_stays_marked<M>(ledger: Ledger, moves: Seq<Move<M>>)
    requires
        ledger.status != SchedulerStatus::Alive,
        is_history(ledger, moves),
    ensures
        ledger_after(ledger, moves).status != SchedulerStatus::Alive,
    decreases moves.len(),
{
    if moves.len() > 0 {
        let earlier = moves.drop_last();
        lemma_status_stays_marked(ledger, earlier);
        if let Move::Polled(events) = moves.last() {
            law_waiting_uses_up_sources(ledger_after(ledger, earlier), events);
        }
    }
}

proof fn lemma_messages<M>(ledger: Ledger, events: Seq<Event<M>>)
    requires
        ledger.unfolds(events),
    ensures
        messages(events) == Move::Polled(events).got(ledger),
    decreases events.len(),
{
    if events.len() > 0 {
        let earlier = events.drop_last();
        lemma_messages(ledger, earlier);
        assert(!ledger.after_all(earlier).is_dead());
    }
}

/* ------ Kinds and edges ------ */

/// Sink and joint actors start out with one attached stream, the channel of their clients, and
/// whatever they wire up keeps them alive. A stream actor starts out with none: it lives on the
/// streams and futures that are added to it.
pub proof fn law_streams_at_launch<M: Sendable, O: Sendable + Clone>(
    recv: UnboundedReceiver<M>,
    before: Books<M>,
    after: Books<M>,
)
    requires
        before.ledger.status == SchedulerStatus::Alive,
    ensures
        <SinkActor as ActorKind<M>>::inbound_streams(recv) == 1,
        <JointActor<O> as ActorKind<M>>::inbound_streams((recv, ())) == 1,
        <StreamActor<O> as ActorKind<M>>::inbound_streams(()) == 0,
        <SinkActor as ActorKind<M>>::initialized(recv, before, after) ==> {
            &&& after.ledger.streams == before.ledger.streams + 1
            &&& !after.ledger.is_dead()
        },
        <JointActor<O> as ActorKind<M>>::initialized((recv, ()), before, after) ==> {
            &&& after.ledger.streams == before.ledger.streams + 1
            &&& !after.ledger.is_dead()
        },
        <StreamActor<O> as ActorKind<M>>::initialized((), before, after) ==> {
            &&& after == before
            &&& after.ledger.is_dead() <==> before.ledger.streams + before.ledger.futures == 0
        },
{
}

/// A client that was added as an edge is the one that is found under its type, and once the edge is
/// removed none is.
pub proof fn law_edges_are_found<M, K, P: Sendable>(
    scheduler: Scheduler<M, K>,
    client: SinkClient<P>,
    found: Option<&SinkClient<P>>,
)
    requires
        call_ensures(Scheduler::<M, K>::get_edge::<P>, (&scheduler,), found),
    ensures
        scheduler.edges().keeps(Some(client)) ==> found == Some(&client),
        scheduler.edges().keeps(None::<SinkClient<P>>) ==> found is None,
        edge_count(scheduler.edges()) == 0 ==> found is None,
{
    let kept = Some(client);
    if scheduler.edges().keeps(kept) {
        assert(found == Some(&kept->0));
    }
}

/// A container that was added as an edge is the one that is found under its type, and once the edge
/// is removed none is.
pub proof fn law_multi_edges_are_found<M, K, C: 'static + Send>(
    scheduler: Scheduler<M, K>,
    container: C,
    found: Option<&C>,
)
    requires
        call_ensures(Scheduler::<M, K>::get_multi_edge::<C>, (&scheduler,), found),
    ensures
        scheduler.edges().keeps(Some(container)) ==> found == Some(&container),
        scheduler.edges().keeps(None::<C>) ==> found is None,
        edge_count(scheduler.edges()) == 0 ==> found is None,
{
    let kept = Some(container);
    if scheduler.edges().keeps(kept) {
        assert(found == Some(&kept->0));
    }
}

/// Adding, changing or removing an edge of one type leaves those of any other type as they are: what
/// was kept for it still is, and nothing else.
pub proof fn law_other_edges_stay<C: 'static, D: 'static + Send>(
    before: Edges,
    after: Edges,
    value: Option<D>,
)
    requires
        before.agrees_but_for::<C>(after),
        distinct::<C, D>(),
    ensures
        before.keeps(value) <==> after.keeps(value),
{
    before.lemma_others_stay::<C, D>(after, value);
}

/// An actor starts out without edges, whatever their type.
pub proof fn law_new_actor_has_no_edges<C: 'static + Send>(edges: Edges)
    requires
        edges.is_bare(),
    ensures
        edges.keeps(None::<C>),
{
    edges.lemma_bare::<C>();
}

/// A sink actor has no way to broadcast.
pub proof fn law_sink_actor_does_not_broadcast(kind: SinkActor)
    ensures
        kind.outlet() is None,
{
}

proof fn lemma_only_last_yields<M>(ledger: Ledger, events: Seq<Event<M>>)
    requires
        ledger.unfolds(events),
    ensures
        forall|i: int| 0 <= i < events.len() - 1 ==> (#[trigger] events[i]).yields() is None,
    decreases events.len(),
{
    if events.len() > 0 {
        let earlier = events.drop_last();
        lemma_only_last_yields(ledger, earlier);
        assert forall|i: int| 0 <= i < events.len() - 1 implies (
        #[trigger] events[i]).yields() is None by {
            assert(earlier[i] == events[i]);
        }
    }
}

} // verus!
