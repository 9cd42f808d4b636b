//! Actors that are only sent messages (either fire-and-forget messages or request-response
//! messages).

use std::task::Context;
use std::task::Poll;

use tokio::sync::mpsc;
use tokio::sync::mpsc::error::SendError;
use tokio::sync::mpsc::UnboundedReceiver;
use tokio::sync::mpsc::UnboundedSender;
use tokio::sync::oneshot;
use vstd::prelude::*;

use crate::channel::poll_oneshot;
use crate::channel::Polled;
use crate::compat::Sendable;
use crate::scheduler::Books;
use crate::scheduler::Ledger;
use crate::scheduler::Outbound;
use crate::scheduler::OutboundQueue;
use crate::scheduler::Scheduler;
use crate::ActorKind;

verus! {

/// The [`ActorKind`] for actors that only receive messages. A sink actor is one that receives
/// messages from other parts of the application. By adding a oneshot channel to the message,
/// the actor can respond with a particular piece of data. This allows for type-safe communication
/// between different parts of your program.
///
/// The client of a [`SinkActor`] is the [`SinkClient`]. This client implements methods that allow
/// for the sending of messages to this client. Communication between a sink client and sink actor
/// uses an MPSC-style channel (see [`mpsc`](tokio::sync::mpsc)); constructing this kind creates
/// that channel, hands the sending half to the client, and attaches the receiving half to the
/// actor's [`Scheduler`].
///
/// Unlike the other kinds, a sink actor sends nothing back to its clients outside of the oneshot
/// channels carried by its own messages, so this type holds no state of its own.
#[derive(Debug)]
pub struct SinkActor {}

impl<M: Sendable> ActorKind<M> for SinkActor {
    type Client = SinkClient<M>;

    type Config = ();

    type Init = UnboundedReceiver<M>;

    /// The client and the receiver are the two halves of one channel.
    open spec fn constructed(config: (), kind: Self, client: SinkClient<M>, init: UnboundedReceiver<M>) -> bool {
        client.feeds(init)
    }

    open spec fn inbound_streams(init: UnboundedReceiver<M>) -> nat {
        1
    }

    /// The receiver is attached, and nothing else changes.
    open spec fn initialized(
        init: UnboundedReceiver<M>,
        before: Books<M>,
        after: Books<M>,
    ) -> bool {
        &&& before.sources.streams.gained_receiver(init, after.sources.streams)
        &&& after.sources.futures == before.sources.futures
        &&& after.sources.managed == before.sources.managed
        &&& after.edges == before.edges
        &&& after.ledger == (Ledger { streams: before.ledger.streams + 1, ..before.ledger })
    }

    fn construct(config: ()) -> (r: (Self, SinkClient<M>, UnboundedReceiver<M>)) {
        let (send, recv) = mpsc::unbounded_channel();
        (Self {  }, SinkClient::new(send), recv)
    }

    fn init<K>(init: UnboundedReceiver<M>, scheduler: &mut Scheduler<M, K>) {
        scheduler.attach_receiver(init);
    }
}

impl Outbound for SinkActor {
    type Output = ();

    /// A sink actor broadcasts nothing.
    open spec fn outlet(&self) -> Option<OutboundQueue<()>> {
        None
    }

    fn outbound(&mut self) -> (out: Option<&mut OutboundQueue<()>>) {
        None
    }
}

/// A client to an actor. This client sends messages to the actor and supports two styles of
/// messaging. The first is fire-and-forget messages. These messages are sent to the client
/// immediately. The actor will process them eventually. The second kind is request-response or
/// "trackable" messages. These messages are identical to the last kind except they contain a
/// one-time use channel that the actor will use to send a message back.
#[derive(Debug)]
#[verifier::reject_recursive_types(M)]
pub struct SinkClient<M> {
    send: UnboundedSender<M>,
}

impl<M> SinkClient<M> {
    /// The channel to the actor.
    pub closed spec fn channel(self) -> UnboundedSender<M> {
        self.send
    }

    /// If the client and the receiver are the two halves of one channel.
    pub open spec fn feeds(self, recv: UnboundedReceiver<M>) -> bool {
        call_ensures(mpsc::unbounded_channel::<M>, (), (self.channel(), recv))
    }

    /// If the message was put into the channel to the actor, and if the channel took it.
    pub open spec fn put(self, msg: M, taken: bool) -> bool {
        exists|r: Result<(), SendError<M>>|
            #![trigger call_ensures(UnboundedSender::<M>::send, (&self.channel(), msg), r)]
            call_ensures(UnboundedSender::<M>::send, (&self.channel(), msg), r) && taken == r is Ok
    }

    /// If the data was converted to a message and put into the channel to the actor, and if the
    /// channel took it.
    pub open spec fn delivered<I>(self, data: I, taken: bool) -> bool where I: Into<M> {
        exists|msg: M|
            call_ensures(<I as Into<M>>::into, (data,), msg) && #[trigger] self.put(msg, taken)
    }

    /// If the data was paired with the sending half of the tracker's channel and put into the
    /// channel to the actor.
    pub open spec fn asked<I, O>(self, data: I, tracker: Tracker<O>) -> bool where
        M: From<(I, oneshot::Sender<O>)>,
     {
        exists|send: oneshot::Sender<O>, msg: M, taken: bool|
            {
                &&& tracker.listens_to(send)
                &&& #[trigger] call_ensures(
                    <M as From<(I, oneshot::Sender<O>)>>::from,
                    ((data, send),),
                    msg,
                )
                &&& #[trigger] self.put(msg, taken)
            }
    }

    /// A constructor for the client.
    pub(crate) fn new(send: UnboundedSender<M>) -> (client: Self)
        ensures
            client.channel() == send,
    {
        Self { send }
    }

    /// Puts a message into the channel to the actor.
    fn put_message(&self, msg: M) -> (taken: bool)
        ensures
            self.put(msg, taken),
    {
        let ghost sent = msg;
        let r = self.send.send(msg);
        assert(call_ensures(UnboundedSender::<M>::send, (&self.channel(), sent), r));
        r.is_ok()
    }

    /// Returns if the actor that the client is connected to is dead or not.
    pub fn is_closed(&self) -> (closed: bool)
        ensures
            call_ensures(UnboundedSender::<M>::is_closed, (&self.channel(),), closed),
    {
        self.send.is_closed()
    }

    /// Sends a fire-and-forget style message to the actor and returns if the message was sent
    /// successfully.
    pub fn send<I>(&self, msg: I) -> (sent: bool) where I: Into<M>
        ensures
            self.delivered(msg, sent),
    {
        let converted: M = msg.into();
        self.put_message(converted)
    }

    /// Sends a request-response style message to an actor. The given data is paired with a
    /// one-time use channel and sent to the actor. A [`Tracker`] that will receive a response from
    /// the actor is returned.
    pub fn track<I, O>(&self, msg: I) -> (tracker: Tracker<O>) where
        M: From<(I, oneshot::Sender<O>)>,

        ensures
            self.asked(msg, tracker),
    {
        let (send, recv) = oneshot::channel();
        let ghost halves = (send, recv);
        let ghost data = msg;
        let paired = M::from((msg, send));
        let ghost sent = paired;
        let taken = self.put_message(paired);
        let tracker = Tracker::new(recv);
        assert(tracker.listens_to(halves.0));
        assert(call_ensures(
            <M as From<(I, oneshot::Sender<O>)>>::from,
            ((data, halves.0),),
            sent,
        ));
        tracker
    }
}

impl<M> Clone for SinkClient<M> {
    fn clone(&self) -> (copy: Self)
        ensures
            copy == *self,
    {
        Self::new(self.send.clone())
    }
}

/// A tracker for a request-response style message sent to an actor.
///
/// Note: This tracker might be created after a failed attempt to send a message to a dead
/// actor. This means that the tracker will return `None` when polled; however, that does not
/// mean that the message was successfully received by the actor.
#[derive(Debug)]
#[verifier::reject_recursive_types(T)]
pub struct Tracker<T> {
    /// The receiving half of the channel, until it has received.
    recv: Option<oneshot::Receiver<T>>,
}

impl<T> Tracker<T> {
    /// The receiving half of the channel, until it has received.
    pub closed spec fn channel(self) -> Option<oneshot::Receiver<T>> {
        self.recv
    }

    /// If this is the sending half of the tracker's channel.
    pub open spec fn listens_to(self, send: oneshot::Sender<T>) -> bool {
        self.channel() matches Some(recv) && call_ensures(oneshot::channel::<T>, (), (send, recv))
    }

    /// If a poll of the receiving half in this context came back with this.
    pub closed spec fn heard(
        self,
        context: Context<'_>,
        r: Polled<Result<T, oneshot::error::RecvError>, oneshot::Receiver<T>>,
    ) -> bool {
        exists|cx: &mut Context<'_>| #[trigger]
            call_ensures(poll_oneshot::<T>, (self.recv->0, cx), r) && *cx == context
    }

    /// A constructor for the tracker.
    pub(crate) fn new(recv: oneshot::Receiver<T>) -> (tracker: Self)
        ensures
            tracker.channel() == Some(recv),
    {
        Self { recv: Some(recv) }
    }

    /// Polls for the response of the actor: `None` says that there will be none. A tracker that
    /// has said either must not be polled again.
    pub fn poll(&mut self, cx: &mut Context<'_>) -> (response: Poll<Option<T>>)
        requires
            old(self).channel() is Some,
        ensures
            response is Ready <==> final(self).channel() is None,
            match response {
                Poll::Ready(Some(value)) => old(self).heard(*old(cx), Polled::Done(Ok(value))),
                Poll::Ready(None) => exists|e: oneshot::error::RecvError| #[trigger]
                    old(self).heard(*old(cx), Polled::Done(Err(e))),
                Poll::Pending => final(self).channel() matches Some(recv) && old(self).heard(
                    *old(cx),
                    Polled::Waiting(recv),
                ),
            },
    {
        let polled = poll_oneshot(self.recv.take().unwrap(), cx);
        assert(old(self).heard(*old(cx), polled));
        match polled {
            Polled::Done(Ok(value)) => Poll::Ready(Some(value)),
            Polled::Done(Err(_)) => Poll::Ready(None),
            Polled::Waiting(recv) => {
                self.recv = Some(recv);
                Poll::Pending
            },
        }
    }
}

/* ------ What is behind the words ------ */

/// Sending converts what is given, puts that one message into the channel to the actor, and tells what
/// the channel answered.
pub proof fn law_sending_puts_one_message<M, I>(client: SinkClient<M>, data: I, sent: bool) where
    I: Into<M>,

    requires
        client.delivered(data, sent),
    ensures
        exists|msg: M, r: Result<(), SendError<M>>|
            {
                &&& call_ensures(<I as Into<M>>::into, (data,), msg)
                &&& #[trigger] call_ensures(
                    UnboundedSender::<M>::send,
                    (&client.channel(), msg),
                    r,
                )
                &&& sent <==> r is Ok
            },
{
    let msg = choose|msg: M|
        call_ensures(<I as Into<M>>::into, (data,), msg) && #[trigger] client.put(msg, sent);
    assert(client.put(msg, sent));
}

/// Tracking pairs what is given with one half of a new channel, puts the message made of both into
/// the channel to the actor, and leaves the other half in the tracker.
pub proof fn law_tracking_pairs_with_the_tracker<M, I, O>(
    client: SinkClient<M>,
    data: I,
    tracker: Tracker<O>,
) where M: From<(I, oneshot::Sender<O>)>
    requires
        client.asked(data, tracker),
    ensures
        exists|
            send: oneshot::Sender<O>,
            recv: oneshot::Receiver<O>,
            msg: M,
            r: Result<(), SendError<M>>,
        |
            {
                &&& #[trigger] call_ensures(oneshot::channel::<O>, (), (send, recv))
                &&& tracker.channel() == Some(recv)
                &&& call_ensures(
                    <M as From<(I, oneshot::Sender<O>)>>::from,
                    ((data, send),),
                    msg,
                )
                &&& #[trigger] call_ensures(
                    UnboundedSender::<M>::send,
                    (&client.channel(), msg),
                    r,
                )
            },
{
    let (send, msg, taken) = choose|send: oneshot::Sender<O>, msg: M, taken: bool|
        {
            &&& tracker.listens_to(send)
            &&& #[trigger] call_ensures(
                <M as From<(I, oneshot::Sender<O>)>>::from,
                ((data, send),),
                msg,
            )
            &&& #[trigger] client.put(msg, taken)
        };
    assert(client.put(msg, taken));
    assert(tracker.listens_to(send));
}

/// A client feeds the receiver that came with its channel.
pub proof fn law_client_feeds_its_receiver<M>(client: SinkClient<M>, recv: UnboundedReceiver<M>)
    requires
        client.feeds(recv),
    ensures
        call_ensures(mpsc::unbounded_channel::<M>, (), (client.channel(), recv)),
{
}

/// A poll of a tracker is one poll of the receiver that it holds, in the context of the caller.
pub(crate) proof fn law_tracker_hands_on_one_poll<T>(
    tracker: Tracker<T>,
    context: Context<'_>,
    r: Polled<Result<T, oneshot::error::RecvError>, oneshot::Receiver<T>>,
)
    requires
        tracker.channel() is Some,
        tracker.heard(context, r),
    ensures
        tracker.channel() matches Some(recv) && exists|cx: &mut Context<'_>| #[trigger]
            call_ensures(poll_oneshot::<T>, (recv, cx), r) && *cx == context,
{
}

/// A client is the channel that it holds, and so is a tracker.
proof fn law_sink_client_is_what_it_holds<M, T>(client: SinkClient<M>, tracker: Tracker<T>)
    ensures
        client.channel() == client.send,
        tracker.channel() == tracker.recv,
{
}

/// What is done with a client comes down to its channel: a message is sent by putting it in, a request
/// by putting it in along with where to answer, and if the actor is gone is what the channel says. A
/// clone is as good as the client.
pub proof fn law_sink_client<M, I, O>() where M: From<(I, oneshot::Sender<O>)>, I: Into<M>
    ensures
        forall|client: SinkClient<M>, msg: I, sent: bool| #[trigger]
            call_ensures(SinkClient::<M>::send::<I>, (&client, msg), sent) ==> client.delivered(
                msg,
                sent,
            ),
        forall|client: SinkClient<M>, msg: I, tracker: Tracker<O>| #[trigger]
            call_ensures(SinkClient::<M>::track::<I, O>, (&client, msg), tracker) ==> client.asked(
                msg,
                tracker,
            ),
        forall|client: SinkClient<M>, closed: bool| #[trigger]
            call_ensures(SinkClient::<M>::is_closed, (&client,), closed) ==> call_ensures(
                UnboundedSender::<M>::is_closed,
                (&client.channel(),),
                closed,
            ),
        forall|client: SinkClient<M>, copy: SinkClient<M>| #[trigger]
            call_ensures(<SinkClient<M> as Clone>::clone, (&client,), copy) ==> copy.channel()
                == client.channel(),
{
}

/// A poll of a tracker answers what the one poll of its receiver came back with, whatever it is: the
/// response, or that there will be none, after which the receiver is gone, or that there is none yet,
/// and then what is left of the receiver is kept.
pub(crate) proof fn law_tracker_poll<T>()
    ensures
        forall|tracker: &mut Tracker<T>, cx: &mut Context<'_>, response: Poll<Option<T>>|
            #[trigger] call_ensures(Tracker::<T>::poll, (tracker, cx), response)
                && tracker.channel() is Some ==> exists|
                waker: &mut Context<'_>,
                r: Polled<Result<T, oneshot::error::RecvError>, oneshot::Receiver<T>>,
            |
                {
                    &&& #[trigger] call_ensures(
                        poll_oneshot::<T>,
                        (tracker.channel()->0, waker),
                        r,
                    )
                    &&& *waker == *cx
                    &&& match r {
                        Polled::Done(Ok(value)) => {
                            &&& response == Poll::Ready(Some(value))
                            &&& final(tracker).channel() is None
                        },
                        Polled::Done(Err(_)) => {
                            &&& response == Poll::Ready(None::<T>)
                            &&& final(tracker).channel() is None
                        },
                        Polled::Waiting(left) => {
                            &&& response is Pending
                            &&& final(tracker).channel() == Some(left)
                        },
                    }
                },
{
}

/// A sink actor attaches the receiver that its clients feed, and nothing else, and broadcasts
/// nothing.
pub proof fn law_sink_actor<M: Sendable>(
    init: UnboundedReceiver<M>,
    before: Books<M>,
    after: Books<M>,
)
    ensures
        forall|kind: SinkActor, client: SinkClient<M>| #[trigger]
            <SinkActor as ActorKind<M>>::constructed((), kind, client, init) ==> call_ensures(
                mpsc::unbounded_channel::<M>,
                (),
                (client.channel(), init),
            ),
        <SinkActor as ActorKind<M>>::inbound_streams(init) == 1,
        <SinkActor as ActorKind<M>>::initialized(init, before, after) ==> {
            &&& before.sources.streams.gained_receiver(init, after.sources.streams)
            &&& after.sources.futures == before.sources.futures
            &&& after.sources.managed == before.sources.managed
            &&& after.edges == before.edges
            &&& after.ledger.streams == before.ledger.streams + 1
            &&& after.ledger.futures == before.ledger.futures
            &&& after.ledger.managed == before.ledger.managed
            &&& after.ledger.status == before.ledger.status
        },
        forall|kind: SinkActor| (#[trigger] kind.outlet()) is None,
{
}

/// A message can be sent and a request made at any time, and a tracker can be polled until it has
/// said something.
pub proof fn law_clients_can_always_send<M, I, O>() where
    M: From<(I, oneshot::Sender<O>)>,
    I: Into<M>,

    ensures
        forall|client: SinkClient<M>, msg: I| #[trigger]
            call_requires(SinkClient::<M>::send::<I>, (&client, msg)),
        forall|client: SinkClient<M>, msg: I| #[trigger]
            call_requires(SinkClient::<M>::track::<I, O>, (&client, msg)),
        forall|tracker: &mut Tracker<O>, cx: &mut Context<'_>|
            tracker.channel() is Some ==> #[trigger] call_requires(
                Tracker::<O>::poll,
                (tracker, cx),
            ),
{
}

} // verus!
