//! Actors that both can be sent messages and broadcast messages.

use std::task::Context;
use std::task::Poll;

use tokio::sync::mpsc;
use tokio::sync::mpsc::UnboundedReceiver;
use tokio::sync::mpsc::UnboundedSender;
use tokio::sync::oneshot;
use vstd::prelude::*;

use crate::compat::Sendable;
use crate::scheduler::Books;
use crate::scheduler::Outbound;
use crate::scheduler::OutboundQueue;
use crate::scheduler::Scheduler;
use crate::sink::SinkActor;
use crate::sink::SinkClient;
use crate::sink::Tracker;
use crate::stream::StreamActor;
use crate::stream::StreamClient;
use crate::ActorKind;

verus! {

/// The [`ActorKind`] for actors that both receive and broadcast messages. A joint actor is one
/// that acts as both a [`SinkActor`] and a [`StreamActor`]. Its clients, [`JointClient`]s, can
/// both send messages into the actor and receive messages forwarded by the actor.
///
/// Note that the actor's inbound and outbound message types are distinct. Inbound messages are the
/// state's [`Message`](crate::ActorState::Message); outbound messages are this kind's `M`.
///
/// Constructing this kind does the work of both of its halves: it creates the MPSC channel that
/// backs the client's sink side and attaches the receiving end to the [`Scheduler`], and it holds
/// the broadcast sender that backs the client's stream side. Since the kind lives in the
/// scheduler, which derefs to it, an actor broadcasts by calling
/// [`broadcast`](JointActor::broadcast) on the scheduler it is given.
#[derive(Debug)]
#[verifier::reject_recursive_types(M)]
pub struct JointActor<M> {
    broadcast: OutboundQueue<M>,
}

impl<M> JointActor<M> {
    /// The queue that broadcast messages go to.
    pub closed spec fn queue(self) -> OutboundQueue<M> {
        self.broadcast
    }
}

impl<M: Sendable, O: Sendable + Clone> ActorKind<M> for JointActor<O> {
    type Client = JointClient<M, O>;

    type Config = ();

    type Init = (UnboundedReceiver<M>, ());

    /// Each half is constructed as the kind of its own that it is.
    open spec fn constructed(
        config: (),
        kind: Self,
        client: JointClient<M, O>,
        init: (UnboundedReceiver<M>, ()),
    ) -> bool {
        &&& client.send_half().feeds(init.0)
        &&& client.recv_half().listens_to(kind.queue())
    }

    open spec fn inbound_streams(init: (UnboundedReceiver<M>, ())) -> nat {
        <SinkActor as ActorKind<M>>::inbound_streams(init.0) + <StreamActor<O> as ActorKind<M>>::inbound_streams(init.1)
    }

    /// What the sink half attaches is attached.
    open spec fn initialized(
        init: (UnboundedReceiver<M>, ()),
        before: Books<M>,
        after: Books<M>,
    ) -> bool {
        <SinkActor as ActorKind<M>>::initialized(init.0, before, after)
    }

    fn construct(config: ()) -> (r: (Self, JointClient<M, O>, (UnboundedReceiver<M>, ()))) {
        let (_, send, init_one) = <SinkActor as ActorKind<M>>::construct(());
        let (stream, recv, init_two) = <StreamActor<O> as ActorKind<M>>::construct(());
        let kind = Self { broadcast: stream.into_queue() };
        let client = JointClient { send, recv };
        (kind, client, (init_one, init_two))
    }

    fn init<K>(init: (UnboundedReceiver<M>, ()), scheduler: &mut Scheduler<M, K>) {
        let (init_one, init_two) = init;
        <SinkActor as ActorKind<M>>::init(init_one, scheduler);
        <StreamActor<O> as ActorKind<M>>::init(init_two, scheduler);
    }
}

impl<M> Outbound for JointActor<M> {
    type Output = M;

    open spec fn outlet(&self) -> Option<OutboundQueue<M>> {
        Some(self.queue())
    }

    fn outbound(&mut self) -> (out: Option<&mut OutboundQueue<M>>) {
        Some(&mut self.broadcast)
    }
}

impl<M: Sendable + Clone> JointActor<M> {
    /// Broadcasts a message to all listening clients. If the message fails to send, the message
    /// will be dropped.
    ///
    /// This is normally reached through the [`Scheduler`], which derefs to this type, rather than
    /// on a `JointActor` directly.
    pub fn broadcast<I>(&mut self, msg: I) where I: Into<M>
        ensures
            old(self).queue().relays(msg, final(self).queue()),
    {
        self.broadcast.send(msg)
    }
}

/// A client to an actor. This client is a combination of the [`SinkClient`] and the
/// [`StreamClient`]. `I` is the type of message sent *into* the actor and `O` is the type of
/// message broadcast *out* of it.
#[derive(Debug)]
#[verifier::reject_recursive_types(I)]
#[verifier::reject_recursive_types(O)]
pub struct JointClient<I, O> {
    send: SinkClient<I>,
    recv: StreamClient<O>,
}

impl<I, O> JointClient<I, O> {
    /// The half that sends messages into the actor.
    pub closed spec fn send_half(self) -> SinkClient<I> {
        self.send
    }

    /// The half that receives what the actor broadcasts.
    pub closed spec fn recv_half(self) -> StreamClient<O> {
        self.recv
    }
}

impl<I, O: Sendable + Clone> JointClient<I, O> {
    /// Consumes the client and return the constituent sink and stream clients.
    pub fn split(self) -> (halves: (SinkClient<I>, StreamClient<O>))
        ensures
            halves == (self.send_half(), self.recv_half()),
    {
        let Self { send, recv } = self;
        (send, recv)
    }

    /// Returns a clone of this client's sink client.
    pub fn sink(&self) -> (client: SinkClient<I>)
        ensures
            client == self.send_half(),
    {
        self.send.clone()
    }

    /// Returns a clone of this client's stream client.
    pub fn stream(&self) -> (client: StreamClient<O>)
        ensures
            call_ensures(StreamClient::<O>::clone, (&self.recv_half(),), client),
    {
        self.recv.clone()
    }

    /// Returns if the actor that the client is connected to is dead or not.
    pub fn is_closed(&self) -> (closed: bool)
        ensures
            call_ensures(
                UnboundedSender::<I>::is_closed,
                (&self.send_half().channel(),),
                closed,
            ),
    {
        self.send.is_closed()
    }

    /// Sends a fire-and-forget style message to the actor and returns if the message was sent
    /// successfully.
    pub fn send<D>(&self, msg: D) -> (sent: bool) where D: Into<I>
        ensures
            self.send_half().delivered(msg, sent),
    {
        self.send.send(msg)
    }

    /// Sends a request-response style message to an actor. The given data is paired with a
    /// one-time use channel and sent to the actor. A [`Tracker`] that will receive a response from
    /// the actor is returned.
    pub fn track<M, R>(&self, msg: M) -> (tracker: Tracker<R>) where
        I: From<(M, oneshot::Sender<R>)>,

        ensures
            self.send_half().asked(msg, tracker),
    {
        self.send.track(msg)
    }

    /// Polls for the next message that the actor broadcasts, as [`StreamClient::poll_next`] does.
    pub fn poll_next(&mut self, cx: &mut Context<'_>) -> (next: Poll<Option<Result<O, u64>>>)
        ensures
            exists|recv: &mut StreamClient<O>, waker: &mut Context<'_>|
                {
                    &&& #[trigger] call_ensures(StreamClient::<O>::poll_next, (recv, waker), next)
                    &&& *recv == old(self).recv_half()
                    &&& *waker == *old(cx)
                    &&& *final(recv) == final(self).recv_half()
                },
            final(self).send_half() == old(self).send_half(),
    {
        self.recv.poll_next(cx)
    }
}

impl<I, O> Clone for JointClient<I, O> where O: Sendable + Clone {
    fn clone(&self) -> (copy: Self)
        ensures
            copy.send_half() == self.send_half(),
            call_ensures(StreamClient::<O>::clone, (&self.recv_half(),), copy.recv_half()),
    {
        Self { send: self.send.clone(), recv: self.recv.clone() }
    }
}

/* ------ What is behind the words ------ */

/// A joint client is made of the two clients that it holds, and a joint actor of the queue that it
/// holds.
proof fn law_joint_client_is_what_it_holds<I, O>(client: JointClient<I, O>, actor: JointActor<O>)
    ensures
        client.send_half() == client.send,
        client.recv_half() == client.recv,
        actor.queue() == actor.broadcast,
{
}

/// A joint client feeds the receiver that is attached to its actor, and listens to the queue that its
/// actor broadcasts to.
pub proof fn law_joint_client_talks_to_its_actor<M: Sendable, O: Sendable + Clone>(
    kind: JointActor<O>,
    client: JointClient<M, O>,
    init: (UnboundedReceiver<M>, ()),
)
    requires
        <JointActor<O> as ActorKind<M>>::constructed((), kind, client, init),
    ensures
        call_ensures(
            mpsc::unbounded_channel::<M>,
            (),
            (client.send_half().channel(), init.0),
        ),
        client.recv_half().listens_to(kind.queue()),
        kind.outlet() == Some(kind.queue()),
{
}

/// What is done with a joint client is done with its two halves: it sends and asks through the one
/// and is polled through the other, which leaves the first alone.
pub proof fn law_joint_client<I, O: Sendable + Clone, D, R>() where
    I: From<(D, oneshot::Sender<R>)>,
    D: Into<I>,

    ensures
        forall|client: JointClient<I, O>, halves: (SinkClient<I>, StreamClient<O>)| #[trigger]
            call_ensures(JointClient::<I, O>::split, (client,), halves) ==> {
                &&& halves.0 == client.send_half()
                &&& halves.1 == client.recv_half()
            },
        forall|client: JointClient<I, O>, sink: SinkClient<I>| #[trigger]
            call_ensures(JointClient::<I, O>::sink, (&client,), sink) ==> sink == client.send_half(),
        forall|client: JointClient<I, O>, stream: StreamClient<O>| #[trigger]
            call_ensures(JointClient::<I, O>::stream, (&client,), stream) ==> call_ensures(
                StreamClient::<O>::clone,
                (&client.recv_half(),),
                stream,
            ),
        forall|client: JointClient<I, O>, closed: bool| #[trigger]
            call_ensures(JointClient::<I, O>::is_closed, (&client,), closed) ==> call_ensures(
                UnboundedSender::<I>::is_closed,
                (&client.send_half().channel(),),
                closed,
            ),
        forall|client: JointClient<I, O>, msg: D, sent: bool| #[trigger]
            call_ensures(JointClient::<I, O>::send::<D>, (&client, msg), sent)
                ==> client.send_half().delivered(msg, sent),
        forall|client: JointClient<I, O>, msg: D, tracker: Tracker<R>| #[trigger]
            call_ensures(JointClient::<I, O>::track::<D, R>, (&client, msg), tracker)
                ==> client.send_half().asked(msg, tracker),
        forall|
            client: &mut JointClient<I, O>,
            cx: &mut Context<'_>,
            next: Poll<Option<Result<O, u64>>>,
        |
            #[trigger] call_ensures(JointClient::<I, O>::poll_next, (client, cx), next) ==> {
                &&& exists|recv: &mut StreamClient<O>, waker: &mut Context<'_>|
                    {
                        &&& #[trigger] call_ensures(
                            StreamClient::<O>::poll_next,
                            (recv, waker),
                            next,
                        )
                        &&& *recv == client.recv_half()
                        &&& *waker == *cx
                        &&& *final(recv) == final(client).recv_half()
                    }
                &&& final(client).send_half() == client.send_half()
            },
        forall|client: JointClient<I, O>, copy: JointClient<I, O>| #[trigger]
            call_ensures(<JointClient<I, O> as Clone>::clone, (&client,), copy) ==> {
                &&& copy.send_half() == client.send_half()
                &&& call_ensures(
                    StreamClient::<O>::clone,
                    (&client.recv_half(),),
                    copy.recv_half(),
                )
            },
{
}

/// A joint actor is both: it attaches the receiver that its clients feed, and nothing else, and
/// broadcasts to the queue that its clients listen to.
pub proof fn law_joint_actor<M: Sendable, O: Sendable + Clone, I: Into<O>>(
    init: (UnboundedReceiver<M>, ()),
    before: Books<M>,
    after: Books<M>,
)
    ensures
        <JointActor<O> as ActorKind<M>>::inbound_streams(init) == 1,
        <JointActor<O> as ActorKind<M>>::initialized(init, before, after) ==> {
            &&& before.sources.streams.gained_receiver(init.0, after.sources.streams)
            &&& after.sources.futures == before.sources.futures
            &&& after.sources.managed == before.sources.managed
            &&& after.edges == before.edges
            &&& after.ledger.streams == before.ledger.streams + 1
            &&& after.ledger.futures == before.ledger.futures
            &&& after.ledger.managed == before.ledger.managed
            &&& after.ledger.status == before.ledger.status
        },
        forall|kind: JointActor<O>| (#[trigger] kind.outlet()) == Some(kind.queue()),
        forall|actor: &mut JointActor<O>, msg: I| #[trigger]
            call_ensures(JointActor::<O>::broadcast::<I>, (actor, msg), ()) ==> actor.queue().relays(
                msg,
                final(actor).queue(),
            ),
{
}

} // verus!
