//! Actors that broadcast messages.

use std::task::Context;
use std::task::Poll;

use tokio::sync::broadcast;
use tokio_stream::wrappers::errors::BroadcastStreamRecvError;
use vstd::prelude::*;

use crate::channel::poll_broadcast;
use crate::compat::Sendable;
use crate::scheduler::Books;
use crate::scheduler::Outbound;
use crate::scheduler::OutboundQueue;
use crate::scheduler::Scheduler;
use crate::ActorKind;

verus! {

/// The [`ActorKind`] for actors that only broadcast messages. A stream actor is one that receives
/// messages from one or more streams and then forwards messages to its clients.
///
/// The client of a [`StreamActor`] is the [`StreamClient`]. This client implements methods for
/// receiving messages that are "forwarded" by the actor. Unlike the
/// [`SinkActor`](crate::sink::SinkActor), stream actors and clients don't directly support
/// request/response style communication. Communication between a stream actor and client(s) can be
/// modelled with a broadcast-style channel (see [`broadcast::channel`]).
#[derive(Debug)]
#[verifier::reject_recursive_types(M)]
pub struct StreamActor<M> {
    broadcast: OutboundQueue<M>,
}

/// The number of messages that a client can fall behind without missing one.
pub const BACKLOG: usize = 10;

impl<M> StreamActor<M> {
    /// The queue that broadcast messages go to.
    pub closed spec fn queue(self) -> OutboundQueue<M> {
        self.broadcast
    }

    /// Releases the queue that broadcast messages go to.
    pub(crate) fn into_queue(self) -> (queue: OutboundQueue<M>)
        ensures
            queue == self.queue(),
    {
        self.broadcast
    }
}

impl<M, O: Sendable + Clone> ActorKind<M> for StreamActor<O> {
    type Client = StreamClient<O>;

    type Config = ();

    type Init = ();

    /// The client listens to the channel that the actor broadcasts to.
    open spec fn constructed(config: (), kind: Self, client: StreamClient<O>, init: ()) -> bool {
        client.listens_to(kind.queue())
    }

    open spec fn inbound_streams(init: ()) -> nat {
        0
    }

    /// Nothing is attached.
    open spec fn initialized(init: (), before: Books<M>, after: Books<M>) -> bool {
        after == before
    }

    fn construct(config: ()) -> (r: (Self, StreamClient<O>, ())) {
        let (send, recv) = broadcast::channel(BACKLOG);
        let ghost halves = (send, recv);
        let client = StreamClient::new(recv);
        let kind = Self { broadcast: OutboundQueue::new(send) };
        assert(call_ensures(
            broadcast::channel::<O>,
            (BACKLOG,),
            (kind.queue().channel(), halves.1),
        ));
        (kind, client, ())
    }

    fn init<K>(init: (), scheduler: &mut Scheduler<M, K>) {
    }
}

impl<M> Outbound for StreamActor<M> {
    type Output = M;

    open spec fn outlet(&self) -> Option<OutboundQueue<M>> {
        Some(self.queue())
    }

    fn outbound(&mut self) -> (out: Option<&mut OutboundQueue<M>>) {
        Some(&mut self.broadcast)
    }
}

impl<M: Sendable + Clone> StreamActor<M> {
    /// Broadcasts a message to all listening clients. If the message fails to send, the message
    /// will be dropped.
    pub fn broadcast<I>(&mut self, msg: I) where I: Into<M>
        ensures
            old(self).queue().relays(msg, final(self).queue()),
    {
        self.broadcast.send(msg)
    }
}

/// A client that receives messages from an actor that broadcasts them.
#[derive(Debug)]
#[verifier::reject_recursive_types(M)]
pub struct StreamClient<M> {
    recv: Subscription<M>,
}

/// Because of how broadcast streams are implemented in `tokio_stream`, we can not create a
/// broadcast stream from another broadcast stream. Because of this, we must track a second, inner
/// receiver.
#[derive(Debug)]
#[verifier::reject_recursive_types(M)]
struct Subscription<M> {
    /// A second receiver of the channel, used for cloning the client.
    copy: broadcast::Receiver<M>,
    /// The stream that is polled, until it has closed.
    inner: Option<tokio_stream::wrappers::BroadcastStream<M>>,
}

/// What a client makes of what came out of its channel: a message, the number of messages that it
/// missed, or that the channel has closed.
pub open spec fn handed_on<M>(polled: Poll<Option<Result<M, BroadcastStreamRecvError>>>) -> Poll<
    Option<Result<M, u64>>,
> {
    match polled {
        Poll::Ready(Some(Ok(val))) => Poll::Ready(Some(Ok(val))),
        Poll::Ready(Some(Err(BroadcastStreamRecvError::Lagged(count)))) => Poll::Ready(
            Some(Err(count)),
        ),
        Poll::Ready(None) => Poll::Ready(None),
        Poll::Pending => Poll::Pending,
    }
}

/// If this says that the channel has closed.
pub open spec fn has_closed<M>(polled: Poll<Option<Result<M, BroadcastStreamRecvError>>>) -> bool {
    polled matches Poll::Ready(None)
}

/// Makes of what came out of a channel what a client hands on.
pub fn hand_on<M>(polled: Poll<Option<Result<M, BroadcastStreamRecvError>>>) -> (r: Poll<
    Option<Result<M, u64>>,
>)
    ensures
        r == handed_on(polled),
{
    match polled {
        Poll::Ready(Some(Ok(val))) => Poll::Ready(Some(Ok(val))),
        Poll::Ready(Some(Err(BroadcastStreamRecvError::Lagged(count)))) => Poll::Ready(
            Some(Err(count)),
        ),
        Poll::Ready(None) => Poll::Ready(None),
        Poll::Pending => Poll::Pending,
    }
}

impl<M> StreamClient<M> {
    /// The receiver that new clients are made from.
    pub closed spec fn copy(self) -> broadcast::Receiver<M> {
        self.recv.copy
    }

    /// The stream that messages come out of, until it has closed.
    pub closed spec fn inner(self) -> Option<tokio_stream::wrappers::BroadcastStream<M>> {
        self.recv.inner
    }
}

impl<M> StreamClient<M> where M: Sendable + Clone {
    /// If the client was made from this receiver.
    pub open spec fn subscribed(self, recv: broadcast::Receiver<M>) -> bool {
        &&& call_ensures(broadcast::Receiver::<M>::resubscribe, (&recv,), self.copy())
        &&& self.inner() matches Some(stream) && call_ensures(
            tokio_stream::wrappers::BroadcastStream::<M>::new,
            (recv,),
            stream,
        )
    }

    /// If the client was made along with the channel that the queue sends to.
    pub open spec fn listens_to(self, queue: OutboundQueue<M>) -> bool {
        exists|recv: broadcast::Receiver<M>|
            {
                &&& #[trigger] call_ensures(
                    broadcast::channel::<M>,
                    (BACKLOG,),
                    (queue.channel(), recv),
                )
                &&& self.subscribed(recv)
            }
    }

    /// If a poll of the client's stream in this context came back with `polled` and left `left`
    /// behind. A stream that has closed is dropped, and stays closed.
    pub closed spec fn heard(
        self,
        context: Context<'_>,
        polled: Poll<Option<Result<M, BroadcastStreamRecvError>>>,
        left: Option<tokio_stream::wrappers::BroadcastStream<M>>,
    ) -> bool {
        match self.recv.inner {
            Some(stream) => exists|
                cx: &mut Context<'_>,
                rest: tokio_stream::wrappers::BroadcastStream<M>,
            |
                {
                    &&& #[trigger] call_ensures(poll_broadcast::<M>, (stream, cx), (rest, polled))
                    &&& *cx == context
                    &&& left == (if has_closed(polled) {
                        None
                    } else {
                        Some(rest)
                    })
                },
            None => has_closed(polled) && left is None,
        }
    }

    /// If `next` is what the client makes of what a poll of its stream in this context came back
    /// with, and `left` is what the poll left behind.
    pub open spec fn told(
        self,
        context: Context<'_>,
        next: Poll<Option<Result<M, u64>>>,
        left: Option<tokio_stream::wrappers::BroadcastStream<M>>,
    ) -> bool {
        exists|polled: Poll<Option<Result<M, BroadcastStreamRecvError>>>| #[trigger]
            self.heard(context, polled, left) && next == handed_on(polled)
    }

    /// A constructor for the client.
    pub(crate) fn new(recv: broadcast::Receiver<M>) -> (client: Self)
        ensures
            client.subscribed(recv),
    {
        Self { recv: Subscription::new(recv) }
    }

    /// Polls for the next message that the actor broadcasts: an error tells how many messages were
    /// missed because the client was too slow, and `None` that the actor has closed.
    pub fn poll_next(&mut self, cx: &mut Context<'_>) -> (next: Poll<Option<Result<M, u64>>>)
        ensures
            old(self).told(*old(cx), next, final(self).inner()),
            next == Poll::Ready(None::<Result<M, u64>>) <==> final(self).inner() is None,
            next is Pending ==> final(self).copy() == old(self).copy(),
            next is Ready ==> exists|
                copy: &mut broadcast::Receiver<M>,
                r: Result<M, broadcast::error::TryRecvError>,
            |
                {
                    &&& #[trigger] call_ensures(broadcast::Receiver::<M>::try_recv, (copy,), r)
                    &&& *copy == old(self).copy()
                    &&& *final(copy) == final(self).copy()
                },
    {
        let polled = match self.recv.inner.take() {
            Some(stream) => {
                let (rest, polled) = poll_broadcast(stream, cx);
                if let Poll::Ready(None) = polled {
                } else {
                    self.recv.inner = Some(rest);
                }
                polled
            },
            None => Poll::Ready(None),
        };
        assert(old(self).heard(*old(cx), polled, self.recv.inner));
        if let Poll::Ready(_) = polled {
            let _ = self.recv.copy.try_recv();
        }
        hand_on(polled)
    }
}

impl<M> Clone for StreamClient<M> where M: Sendable + Clone {
    fn clone(&self) -> (copy: Self)
        ensures
            exists|recv: broadcast::Receiver<M>|
                call_ensures(broadcast::Receiver::<M>::resubscribe, (&self.copy(),), recv)
                    && #[trigger] copy.subscribed(recv),
    {
        let recv = self.recv.copy.resubscribe();
        let ghost fresh = recv;
        let copy = Self { recv: Subscription::new(recv) };
        assert(copy.subscribed(fresh));
        copy
    }
}

impl<M> Subscription<M> where M: Sendable + Clone {
    fn new(stream: broadcast::Receiver<M>) -> (r: Self)
        ensures
            call_ensures(broadcast::Receiver::<M>::resubscribe, (&stream,), r.copy),
            r.inner matches Some(inner) && call_ensures(
                tokio_stream::wrappers::BroadcastStream::<M>::new,
                (stream,),
                inner,
            ),
    {
        let copy = stream.resubscribe();
        let inner = tokio_stream::wrappers::BroadcastStream::new(stream);
        Self { copy, inner: Some(inner) }
    }
}

/* ------ What is behind the words ------ */

/// One poll of a client is one poll of the stream that it holds, in the context of the caller, and
/// its answer is the answer of that poll: a message is that message, a notice of missed messages is
/// their number, whatever it is, and the end is the end. What that poll leaves behind is kept, until
/// the end. A client whose stream has ended says so again.
pub(crate) proof fn law_client_hands_on_one_poll<M>(
    client: StreamClient<M>,
    context: Context<'_>,
    next: Poll<Option<Result<M, u64>>>,
    left: Option<tokio_stream::wrappers::BroadcastStream<M>>,
) where M: Sendable + Clone
    requires
        client.told(context, next, left),
    ensures
        match client.inner() {
            Some(stream) => exists|
                cx: &mut Context<'_>,
                rest: tokio_stream::wrappers::BroadcastStream<M>,
                polled: Poll<Option<Result<M, BroadcastStreamRecvError>>>,
            |
                {
                    &&& #[trigger] call_ensures(poll_broadcast::<M>, (stream, cx), (rest, polled))
                    &&& *cx == context
                    &&& match polled {
                        Poll::Ready(Some(Ok(msg))) => {
                            &&& next == Poll::Ready(Some(Ok::<M, u64>(msg)))
                            &&& left == Some(rest)
                        },
                        Poll::Ready(Some(Err(BroadcastStreamRecvError::Lagged(missed)))) => {
                            &&& next == Poll::Ready(Some(Err::<M, u64>(missed)))
                            &&& left == Some(rest)
                        },
                        Poll::Ready(None) => {
                            &&& next == Poll::Ready(None::<Result<M, u64>>)
                            &&& left is None
                        },
                        Poll::Pending => next is Pending && left == Some(rest),
                    }
                },
            None => next == Poll::Ready(None::<Result<M, u64>>) && left is None,
        },
{
    let polled = choose|polled: Poll<Option<Result<M, BroadcastStreamRecvError>>>| #[trigger]
        client.heard(context, polled, left) && next == handed_on(polled);
    assert(client.heard(context, polled, left));
}

/// A client is the stream and the receiver that it holds, and a stream actor the queue that it holds.
proof fn law_client_is_what_it_holds<M>(client: StreamClient<M>, actor: StreamActor<M>)
    ensures
        client.inner() == client.recv.inner,
        client.copy() == client.recv.copy,
        actor.queue() == actor.broadcast,
{
}

/// What comes out of a channel is handed on unchanged: every message as that message, every number of
/// missed messages as that number, the end as the end.
pub proof fn law_nothing_is_swallowed<M>(msg: M, missed: u64)
    ensures
        handed_on(Poll::Ready(Some(Ok::<M, BroadcastStreamRecvError>(msg)))) == Poll::Ready(
            Some(Ok::<M, u64>(msg)),
        ),
        handed_on::<M>(Poll::Ready(Some(Err(BroadcastStreamRecvError::Lagged(missed)))))
            == Poll::Ready(Some(Err::<M, u64>(missed))),
        handed_on::<M>(Poll::Ready(None)) == Poll::Ready(None::<Result<M, u64>>),
        handed_on::<M>(Poll::Pending) is Pending,
        forall|polled: Poll<Option<Result<M, BroadcastStreamRecvError>>>|
            (#[trigger] handed_on(polled)) is Pending <==> polled is Pending,
        forall|polled: Poll<Option<Result<M, BroadcastStreamRecvError>>>| #[trigger]
            handed_on(polled) == Poll::Ready(None::<Result<M, u64>>) <==> polled == Poll::Ready(
                None::<Result<M, BroadcastStreamRecvError>>,
            ),
{
}

/// A client of a stream actor listens to the very channel that the actor broadcasts to, which keeps
/// the backlog, and its copies come from that channel too.
pub proof fn law_client_listens_to_its_actor<M>(client: StreamClient<M>, queue: OutboundQueue<M>) where
    M: Sendable + Clone,

    requires
        client.listens_to(queue),
    ensures
        exists|recv: broadcast::Receiver<M>|
            {
                &&& #[trigger] call_ensures(
                    broadcast::channel::<M>,
                    (10usize,),
                    (queue.channel(), recv),
                )
                &&& call_ensures(broadcast::Receiver::<M>::resubscribe, (&recv,), client.copy())
                &&& client.inner() matches Some(stream) && call_ensures(
                    tokio_stream::wrappers::BroadcastStream::<M>::new,
                    (recv,),
                    stream,
                )
            },
{
}

/// A poll of a client, whatever it comes back with, is told by one poll of its stream in the context
/// of the caller. The receiver that new clients are made from follows, one message for each that the
/// client hands on, and is left alone otherwise.
pub proof fn law_client_poll<M: Sendable + Clone>()
    ensures
        forall|client: &mut StreamClient<M>, cx: &mut Context<'_>, next: Poll<Option<Result<M, u64>>>|
            #[trigger] call_ensures(StreamClient::<M>::poll_next, (client, cx), next) ==> {
                &&& client.told(*cx, next, final(client).inner())
                &&& next == Poll::Ready(None::<Result<M, u64>>) <==> final(client).inner() is None
                &&& next is Pending ==> final(client).copy() == client.copy()
                &&& next is Ready ==> exists|
                    copy: &mut broadcast::Receiver<M>,
                    r: Result<M, broadcast::error::TryRecvError>,
                |
                    {
                        &&& #[trigger] call_ensures(broadcast::Receiver::<M>::try_recv, (copy,), r)
                        &&& *copy == client.copy()
                        &&& *final(copy) == final(client).copy()
                    }
            },
        forall|
            polled: Poll<Option<Result<M, BroadcastStreamRecvError>>>,
            r: Poll<Option<Result<M, u64>>>,
        | #[trigger] call_ensures(hand_on::<M>, (polled,), r) ==> r == handed_on(polled),
{
}

/// A clone of a client has a receiver and a stream of its own, both made from one that subscribes to
/// the channel of the client anew.
pub proof fn law_cloned_client_subscribes_anew<M: Sendable + Clone>(
    client: StreamClient<M>,
    clone: StreamClient<M>,
)
    requires
        call_ensures(<StreamClient<M> as Clone>::clone, (&client,), clone),
    ensures
        exists|recv: broadcast::Receiver<M>|
            {
                &&& #[trigger] call_ensures(
                    broadcast::Receiver::<M>::resubscribe,
                    (&client.copy(),),
                    recv,
                )
                &&& call_ensures(broadcast::Receiver::<M>::resubscribe, (&recv,), clone.copy())
                &&& clone.inner() matches Some(stream) && call_ensures(
                    tokio_stream::wrappers::BroadcastStream::<M>::new,
                    (recv,),
                    stream,
                )
            },
{
}

/// A stream actor broadcasts to the queue that its clients listen to, and attaches nothing.
pub proof fn law_stream_actor<M, O: Sendable + Clone, I: Into<O>>(init: ())
    ensures
        forall|kind: StreamActor<O>, client: StreamClient<O>| #[trigger]
            <StreamActor<O> as ActorKind<M>>::constructed((), kind, client, init)
                ==> client.listens_to(kind.queue()),
        forall|actor: &mut StreamActor<O>, msg: I| #[trigger]
            call_ensures(StreamActor::<O>::broadcast::<I>, (actor, msg), ()) ==> actor.queue().relays(
                msg,
                final(actor).queue(),
            ),
        forall|kind: StreamActor<O>| (#[trigger] kind.outlet()) == Some(kind.queue()),
        forall|before: Books<M>, after: Books<M>| #[trigger]
            <StreamActor<O> as ActorKind<M>>::initialized(init, before, after) <==> after == before,
        <StreamActor<O> as ActorKind<M>>::inbound_streams(init) == 0,
{
}

/// A client can be polled at any time, also after its stream has ended.
pub proof fn law_clients_can_always_be_polled<M: Sendable + Clone>()
    ensures
        forall|client: &mut StreamClient<M>, cx: &mut Context<'_>| #[trigger]
            call_requires(StreamClient::<M>::poll_next, (client, cx)),
{
}

} // verus!
