//! Troupe provides a high-level toolset for modelling states and data flows. Troupe actors are
//! built on top of async tasks and help you model and control the flow of information into and out
//! of them.
//!
//! The general model of an actor is a state machine that receives messages from surrounding state,
//! updates its state, and potentially sends messages to other actors and/or spawns more actors.
//! This crate is the part of it that can be proved: where messages come from and go to, when an
//! actor has to close, and what is then left to do. Everything in here is polled, so that the code
//! around it can run it in any async runtime.
//!
//! Actors can have any number of streams attached, and all of them are selected on
//! indiscriminately. Meaning if two streams should yield items one after another, that invariant is
//! not enforced. Most actors have one stream by default, their client. When spawned, a client to
//! the actor is returned. Clients can be modelled in many ways, but many provide a way to send
//! messages into the actor.
//!
//! Actors can receive messages from places other than their client(s), such as streams that are
//! attached to them and futures that they queue. All of this is handled by the [`Scheduler`].
//!
//! NOTE: Since all streams *and* futures handled by the [`Scheduler`] are selected on, they need to
//! be cancel safe.

pub mod actor;
pub mod channel;
pub mod compat;
pub mod edges;
pub mod ensemble;
pub mod joint;
pub mod laws;
pub mod map;
pub mod pollset;
pub mod prelude;
pub mod runner;
pub mod scheduler;
pub mod sink;
pub mod stream;

pub use tokio::sync::oneshot::channel as oneshot_channel;
pub use tokio::sync::oneshot::Receiver as OneshotReceiver;
pub use tokio::sync::oneshot::Sender as OneshotSender;

use vstd::prelude::*;

pub use crate::scheduler::Scheduler;

use crate::compat::Sendable;
use crate::compat::SendableFusedStream;
use crate::edges::edge_count;
use crate::pollset::Inbound;
use crate::runner::ActorRunner;
use crate::scheduler::Books;
use crate::scheduler::Ledger;
use crate::scheduler::SchedulerStatus;

verus! {

/// The core abstraction of the actor model. An [`ActorState`] sits at the heart of every actor. It
/// processes messages, queues futures, and attaches streams in the [`Scheduler`], and it can
/// forward messages.
///
/// Actors serve two roles. They can act similarly to a sink where other parts of your application
/// (including other actors) send messages into the actor. They can also act as a stream that
/// generates messages to be sent throughout your application. This role is denoted by the actor's
/// [`ActorKind`], which informs the [`ActorBuilder`] what kind of actor it is working with. For
/// sink-like actors, use the [`SinkActor`](crate::sink::SinkActor) type. For stream-like actors, use
/// the [`StreamActor`](crate::stream::StreamActor) type. For actors that function as both, use the
/// [`JointActor`](crate::joint::JointActor) type.
pub trait ActorState: Sendable + Sized {
    /// The type that inbound messages to the actor will be.
    type Message: Sendable;

    /// Actors can serve different roles in the surrounding state, defined by the type of client
    /// the actor has. The [`ActorKind`] defines those clients as well as additional state the
    /// [`Scheduler`] has to interact with those clients.
    type ActorKind: ActorKind<Self::Message>;
}

/// Where [`ActorState`] describes how an actor reacts to messages, the `ActorKind` trait describes
/// how messages get into and out of that actor. The three kinds provided by this crate are
/// [`SinkActor`](crate::sink::SinkActor), [`StreamActor`](crate::stream::StreamActor), and
/// [`JointActor`](crate::joint::JointActor), but these can be extended into other message-passing
/// patterns (e.g. back pressure, single-consumer clients, etc.) without changing the [`Scheduler`].
///
/// A kind is constructed when the actor is launched where it does three jobs:
/// 1. Builds the [`Client`](ActorKind::Client) that [`ActorBuilder::spawn`] returns.
/// 2. Attaches whatever inbound streams that client needs.
/// 3. Keeps whatever state is needed to send messages back out.
///
/// That third piece is stored in the [`Scheduler`], which derefs to the kind. Any inherent method a
/// kind defines is therefore callable straight off the scheduler.
pub trait ActorKind<M>: Sized + Sendable {
    /// The client that is returned to the caller of [`ActorBuilder::spawn`].
    type Client;

    /// The data that this needs in order to be constructed. Kinds that need no config should use
    /// `()`, so [`ActorBuilder::config`] does not need to be called. Otherwise, a value of this
    /// type must be given to the builder via [`ActorBuilder::config`] before launching.
    type Config;

    /// What is left to be wired up once the [`Scheduler`] exists.
    type Init;

    /// If this is what the construction of the kind may come up with.
    spec fn constructed(
        config: Self::Config,
        kind: Self,
        client: Self::Client,
        init: Self::Init,
    ) -> bool;

    /// The number of streams that are attached to the scheduler when it is wired up.
    spec fn inbound_streams(init: Self::Init) -> nat;

    /// If this is what wiring up does to what a scheduler keeps.
    spec fn initialized(init: Self::Init, before: Books<M>, after: Books<M>) -> bool;

    /// Uses the given config to construct `Self`, its client, and what is left to be wired up.
    ///
    /// The kind is needed to build the scheduler, so anything that must be registered *on* the
    /// scheduler (most notably inbound streams) can not be done here. Instead, that work is done by
    /// [`init`](ActorKind::init) once the scheduler exists.
    fn construct(config: Self::Config) -> (r: (Self, Self::Client, Self::Init))
        ensures
            Self::constructed(config, r.0, r.1, r.2),
    ;

    /// Finishes wiring up the [`Scheduler`].
    fn init<K>(init: Self::Init, scheduler: &mut Scheduler<M, K>)
        requires
            old(scheduler).ledger().streams + Self::inbound_streams(init) <= usize::MAX,
        ensures
            final(scheduler).ledger().streams == old(scheduler).ledger().streams
                + Self::inbound_streams(init),
            Self::initialized(init, old(scheduler).books(), final(scheduler).books()),
            old(scheduler).books().balanced() ==> final(scheduler).books().balanced(),
            final(scheduler).kind() == old(scheduler).kind(),
    ;
}

/// Marks actors that run until their sources of messages are exhausted.
#[derive(Debug, Clone, Copy)]
pub struct Permanent;

/// Marks actors that may shut down before that.
#[derive(Debug, Clone, Copy)]
pub struct Transient;

/// Holds a type that implements [`ActorState`], helps aggregate all data that the actor needs, and
/// then assembles the actor. The client of the actor is returned to the caller. That client's type
/// is the [`Client`](ActorKind::Client) of the state's [`ActorKind`].
pub struct ActorBuilder<A: ActorState, C> {
    recv: Inbound<A::Message>,
    stream_count: usize,
    config: C,
    state: A,
}

impl<A: ActorState, C> ActorBuilder<A, C> {
    /// The state of the actor.
    pub closed spec fn state(self) -> A {
        self.state
    }

    /// The config for the kind of the actor.
    pub closed spec fn given(self) -> C {
        self.config
    }

    /// The number of streams that were attached.
    pub closed spec fn streams(self) -> nat {
        self.stream_count as nat
    }

    /// The streams that were attached.
    pub closed spec fn inbound(self) -> Inbound<A::Message> {
        self.recv
    }
}

/// If a new scheduler became the other one by being wired up.
pub open spec fn wired_up<M, K: ActorKind<M>>(
    init: K::Init,
    fresh: Scheduler<M, K>,
    wired: Scheduler<M, K>,
) -> bool {
    &&& fresh.ledger() == (Ledger {
        streams: 0,
        futures: 0,
        managed: 0,
        status: SchedulerStatus::Alive,
    })
    &&& fresh.sources().streams.count() == 0
    &&& edge_count(fresh.edges()) == 0
    &&& fresh.edges().is_bare()
    &&& K::initialized(init, fresh.books(), wired.books())
    &&& wired.ledger().streams == K::inbound_streams(init)
    &&& wired.kind() == fresh.kind()
}

/* --------- All actors --------- */

impl<A: ActorState> ActorBuilder<A, ()> {
    /// Constructs a new builder for an actor that uses the given state.
    pub fn new(state: A) -> (builder: Self)
        ensures
            builder.state() == state,
            builder.streams() == 0,
            builder.inbound().count() == 0,
    {
        Self { state, recv: Inbound::new(), stream_count: 0, config: () }
    }
}

impl<A: ActorState, C> ActorBuilder<A, C> {
    /// Attaches a stream that will be used by the actor once its spawned. No messages will be
    /// processed until after the actor is launched.
    pub fn attach_stream<S, I>(self, stream: S) -> (builder: Self) where
        S: SendableFusedStream<I>,
        I: 'static + Into<A::Message>,

        requires
            self.streams() < usize::MAX,
        ensures
            builder.state() == self.state(),
            builder.given() == self.given(),
            builder.streams() == self.streams() + 1,
            self.inbound().gained::<S, I>(stream, builder.inbound()),
            self.inbound().count() <= self.streams() ==> builder.inbound().count()
                <= builder.streams(),
    {
        let mut builder = self;
        builder.recv.push(stream);
        builder.stream_count += 1;
        builder
    }

    /// Provides the config that the state's [`ActorKind`] needs in order to be constructed at
    /// launch. Kinds whose [`Config`](ActorKind::Config) is a unit do not need this method to be
    /// called. Calling this method more than once drops the previous config.
    pub fn config(
        self,
        config: <A::ActorKind as ActorKind<A::Message>>::Config,
    ) -> (builder: ActorBuilder<A, <A::ActorKind as ActorKind<A::Message>>::Config>)
        ensures
            builder.state() == self.state(),
            builder.given() == config,
            builder.streams() == self.streams(),
            builder.inbound() == self.inbound(),
    {
        let Self { recv, stream_count, state, config: _ } = self;
        ActorBuilder { recv, stream_count, config, state }
    }
}

impl<A, K, C> ActorBuilder<A, C> where
    K: ActorKind<A::Message, Config = C>,
    A: ActorState<ActorKind = K>,
 {
    /// Assembles the actor and returns it, ready to run in a separate async task, together with the
    /// client of the actor's [`ActorKind`], through which messages can be sent and/or received.
    pub fn spawn(self) -> (r: (ActorRunner<A>, K::Client))
        requires
            forall|kind: K, client: K::Client, init: K::Init| #[trigger]
                K::constructed(self.given(), kind, client, init) ==> self.streams()
                    + K::inbound_streams(init) <= usize::MAX,
        ensures
            r.0.state == self.state(),
            self.inbound().count() <= self.streams() ==> r.0.scheduler.books().balanced(),
            exists|init: K::Init, fresh: Scheduler<A::Message, K>, wired: Scheduler<A::Message, K>|
                {
                    &&& K::constructed(self.given(), r.0.scheduler.kind(), r.1, init)
                    &&& #[trigger] wired_up(init, fresh, wired)
                    &&& wired.sources().streams.absorbed(
                        self.inbound(),
                        r.0.scheduler.sources().streams,
                    )
                    &&& r.0.scheduler.sources().futures == wired.sources().futures
                    &&& r.0.scheduler.sources().managed == wired.sources().managed
                    &&& r.0.scheduler.edges() == wired.edges()
                    &&& r.0.scheduler.ledger() == (Ledger {
                        streams: wired.ledger().streams + self.streams(),
                        ..wired.ledger()
                    })
                },
    {
        let Self { recv, stream_count, config, state } = self;
        let (kind, client, init) = K::construct(config);
        let ghost left = init;
        assert(K::constructed(self.given(), kind, client, init));
        let mut scheduler: Scheduler<A::Message, K> = Scheduler::new(kind);
        let ghost fresh = scheduler;
        K::init(init, &mut scheduler);
        let ghost wired = scheduler;
        scheduler.attach_all(recv, stream_count);
        assert(wired_up(left, fresh, wired));
        (ActorRunner { state, scheduler }, client)
    }
}

/* --------- What holds of every builder --------- */

/// A builder is what was given to it.
proof fn law_builder_is_what_it_holds<A: ActorState, C>(builder: ActorBuilder<A, C>)
    ensures
        builder.state() == builder.state,
        builder.given() == builder.config,
        builder.streams() == builder.stream_count,
        builder.inbound() == builder.recv,
{
}

/// A builder keeps the state that it is made for, and starts out without streams. Attaching a stream
/// puts that one in and counts it, and the config that is given last is the one that counts. Nothing
/// else changes.
pub proof fn law_builder<A: ActorState, C, S, I>() where
    S: SendableFusedStream<I>,
    I: 'static + Into<A::Message>,

    ensures
        forall|state: A, builder: ActorBuilder<A, ()>| #[trigger]
            call_ensures(ActorBuilder::<A, ()>::new, (state,), builder) ==> {
                &&& builder.state() == state
                &&& builder.streams() == 0
                &&& builder.inbound().count() == 0
            },
        forall|before: ActorBuilder<A, C>, stream: S, after: ActorBuilder<A, C>| #[trigger]
            call_ensures(ActorBuilder::<A, C>::attach_stream::<S, I>, (before, stream), after) ==> {
                &&& after.state() == before.state()
                &&& after.given() == before.given()
                &&& after.streams() == before.streams() + 1
                &&& before.inbound().gained::<S, I>(stream, after.inbound())
            },
        forall|
            before: ActorBuilder<A, C>,
            config: <A::ActorKind as ActorKind<A::Message>>::Config,
            after: ActorBuilder<A, <A::ActorKind as ActorKind<A::Message>>::Config>,
        |
            #[trigger] call_ensures(ActorBuilder::<A, C>::config, (before, config), after) ==> {
                &&& after.state() == before.state()
                &&& after.given() == config
                &&& after.streams() == before.streams()
                &&& after.inbound() == before.inbound()
            },
{
}

/// An actor that is spawned has the state of its builder and a new scheduler that is wired up as its
/// kind says, and then gets all the streams of the builder and nothing else. It is counted as many
/// streams as the builder and the kind attach, and its client is the one that the kind came up with.
pub proof fn law_spawned_actor<A, K, C>() where
    K: ActorKind<A::Message, Config = C>,
    A: ActorState<ActorKind = K>,

    ensures
        forall|builder: ActorBuilder<A, C>, r: (ActorRunner<A>, K::Client)| #[trigger]
            call_ensures(ActorBuilder::<A, C>::spawn, (builder,), r) ==> {
                &&& r.0.state == builder.state()
                &&& exists|
                    init: K::Init,
                    fresh: Scheduler<A::Message, K>,
                    wired: Scheduler<A::Message, K>,
                |
                    {
                        let spawned = r.0.scheduler;
                        &&& #[trigger] wired_up(init, fresh, wired)
                        &&& K::constructed(builder.given(), spawned.kind(), r.1, init)
                        &&& wired.sources().streams.absorbed(
                            builder.inbound(),
                            spawned.sources().streams,
                        )
                        &&& spawned.sources().futures == wired.sources().futures
                        &&& spawned.sources().managed == wired.sources().managed
                        &&& spawned.edges() == wired.edges()
                        &&& spawned.ledger().streams == K::inbound_streams(init)
                            + builder.streams()
                        &&& spawned.ledger().futures == wired.ledger().futures
                        &&& spawned.ledger().managed == wired.ledger().managed
                        &&& spawned.ledger().status == wired.ledger().status
                    }
            },
{
}

/// What is wired up was a new scheduler before, with nothing to poll, no edges and no wish to shut
/// down, and differs from it as its kind says.
pub proof fn law_wiring_up<M, K: ActorKind<M>>(
    init: K::Init,
    fresh: Scheduler<M, K>,
    wired: Scheduler<M, K>,
)
    requires
        wired_up(init, fresh, wired),
    ensures
        fresh.ledger().streams == 0,
        fresh.ledger().futures == 0,
        fresh.ledger().managed == 0,
        fresh.ledger().status == SchedulerStatus::Alive,
        fresh.sources().streams.count() == 0,
        edge_count(fresh.edges()) == 0,
        fresh.edges().is_bare(),
        K::initialized(init, fresh.books(), wired.books()),
        wired.ledger().streams == K::inbound_streams(init),
        wired.kind() == fresh.kind(),
{
}

/// A builder takes streams as long as they can be counted, and spawns its actor whatever was given to
/// it, as long as its streams and those of the kind together can be counted.
pub proof fn law_builder_spawns<A, K, C, S, I>() where
    K: ActorKind<A::Message, Config = C>,
    A: ActorState<ActorKind = K>,
    S: SendableFusedStream<I>,
    I: 'static + Into<A::Message>,

    ensures
        forall|builder: ActorBuilder<A, C>, stream: S|
            builder.streams() < usize::MAX ==> #[trigger] call_requires(
                ActorBuilder::<A, C>::attach_stream::<S, I>,
                (builder, stream),
            ),
        forall|builder: ActorBuilder<A, C>|
            (forall|init: K::Init| #[trigger]
                K::inbound_streams(init) + builder.streams() <= usize::MAX) ==> #[trigger]
                call_requires(ActorBuilder::<A, C>::spawn, (builder,)),
{
}

} // verus!
