use std::collections::VecDeque;
use std::future::poll_fn;
use std::future::Future;
use std::task::Context;
use std::task::Poll;
use std::time::Duration;

use tokio::runtime::Builder;
use tokio::sync::oneshot::error::TryRecvError;
use tokio::time::sleep;
use tokio::time::timeout;
use tokio_stream::wrappers::errors::BroadcastStreamRecvError;
use troupe::compat::SendableFusedStream;
use troupe::compat::SendableStream;
use troupe::prelude::oneshot_channel;
use troupe::prelude::ActorBuilder;
use troupe::prelude::ActorState;
use troupe::prelude::OneshotSender;
use troupe::prelude::Scheduler;
use troupe::prelude::StreamActor;
use troupe::runner::first_stage;
use troupe::runner::next_stage;
use troupe::runner::ActorRunner;
use troupe::runner::Outcome;
use troupe::runner::Stage;
use troupe::scheduler::OutboundQueue;
use troupe::stream::hand_on;
use troupe::stream::BACKLOG;

/// What the actors below do with a message.
trait Process: ActorState {
    fn start_up(&mut self, scheduler: &mut Scheduler<Self::Message, Self::ActorKind>);

    fn process(
        &mut self,
        scheduler: &mut Scheduler<Self::Message, Self::ActorKind>,
        msg: Self::Message,
    );

    fn finalize(self);
}

/// Runs an actor from its start to its end.
fn run<A: Process>(runner: ActorRunner<A>) -> impl Future<Output = ()> + Send {
    let mut stage = first_stage();
    let mut state = Some(runner.state);
    let mut scheduler = Some(runner.scheduler);
    poll_fn(move |cx| loop {
        let outcome = match std::mem::replace(&mut stage, Stage::Receive) {
            Stage::StartUp => {
                state.as_mut().unwrap().start_up(scheduler.as_mut().unwrap());
                Outcome::StartedUp
            }
            Stage::Receive => match scheduler.as_mut().unwrap().poll_next(cx) {
                Poll::Ready(msg) => Outcome::Received(msg),
                Poll::Pending => return Poll::Pending,
            },
            Stage::Process(msg) => {
                state.as_mut().unwrap().process(scheduler.as_mut().unwrap(), msg);
                Outcome::Processed
            }
            Stage::Finalize => {
                state.take().unwrap().finalize();
                Outcome::Finalized
            }
            Stage::Close => {
                drop(scheduler.take().unwrap().finalize());
                return Poll::Ready(());
            }
        };
        stage = next_stage(outcome);
    })
}

/// A stream that yields some items and then closes.
struct Items<I>(VecDeque<I>);

impl<I: 'static + Send> SendableStream<I> for Items<I> {
    fn poll_next(&mut self, _: &mut Context<'_>) -> Poll<Option<I>> {
        Poll::Ready(self.0.pop_front())
    }
}

impl<I: 'static + Send> SendableFusedStream<I> for Items<I> {
    fn is_terminated(&self) -> bool {
        self.0.is_empty()
    }
}

#[derive(Debug, PartialEq, Eq)]
struct Started;

#[derive(Debug, Clone, PartialEq, Eq)]
struct Processed;

#[derive(Debug, PartialEq, Eq)]
struct Completed;

struct DummyStream {
    started: Option<OneshotSender<Started>>,
    completed: OneshotSender<Completed>,
}

impl ActorState for DummyStream {
    type Message = Processed;
    type ActorKind = StreamActor<Processed>;
}

impl Process for DummyStream {
    fn start_up(&mut self, _: &mut Scheduler<Processed, StreamActor<Processed>>) {
        self.started.take().unwrap().send(Started).unwrap();
    }

    fn process(
        &mut self,
        scheduler: &mut Scheduler<Processed, StreamActor<Processed>>,
        msg: Processed,
    ) {
        scheduler.broadcast(msg);
    }

    fn finalize(self) {
        self.completed.send(Completed).unwrap();
    }
}

#[test]
fn stream_startup_and_teardown() {
    let rt = Builder::new_current_thread().enable_time().build().unwrap();
    let _guard = rt.enter();
    let pause = Duration::from_millis(10);
    let (started, mut started_recv) = oneshot_channel();
    let (completed, mut comped_recv) = oneshot_channel();
    let state = DummyStream {
        started: Some(started),
        completed,
    };
    assert_eq!(Err(TryRecvError::Empty), started_recv.try_recv());
    assert_eq!(Err(TryRecvError::Empty), comped_recv.try_recv());
    let stream = Items(VecDeque::from(vec![Processed]));
    let (runner, mut client) = ActorBuilder::new(state).attach_stream(stream).spawn();
    drop(rt.spawn(run(runner)));
    /* ----- Successful startup test ----- */
    assert!(
        rt.block_on(timeout(pause, started_recv)).is_ok(),
        "Actor failed to start!!"
    );
    /* ----- Processes stream test ----- */
    match rt.block_on(timeout(pause, poll_fn(|cx| client.poll_next(cx)))) {
        Err(_) => panic!("Actor failed to process message!!"),
        Ok(msg) => assert_eq!(Some(Ok(Processed)), msg),
    }
    /* ----- Successful shutdown test ----- */
    assert!(
        rt.block_on(timeout(pause, comped_recv)).is_ok(),
        "Actor failed to shutdown!!"
    );
    match rt.block_on(timeout(pause, poll_fn(|cx| client.poll_next(cx)))) {
        Err(_) => panic!("Actor failed to process message!!"),
        Ok(msg) => assert_eq!(None, msg),
    }
}

struct Counter {
    started: Option<OneshotSender<Started>>,
    completed: OneshotSender<Completed>,
    count: usize,
}

impl ActorState for Counter {
    type Message = ();
    type ActorKind = StreamActor<usize>;
}

impl Process for Counter {
    fn start_up(&mut self, scheduler: &mut Scheduler<(), StreamActor<usize>>) {
        self.started.take().unwrap().send(Started).unwrap();
        scheduler.schedule(sleep(Duration::from_millis(5)), ());
    }

    fn process(&mut self, scheduler: &mut Scheduler<(), StreamActor<usize>>, (): ()) {
        println!("Processing message!!");
        let next = self.count + 1;
        scheduler.broadcast(std::mem::replace(&mut self.count, next));
        scheduler.schedule(sleep(Duration::from_millis(5)), ());
        if self.count > 10 {
            scheduler.shutdown();
        }
    }

    fn finalize(self) {
        self.completed.send(Completed).unwrap();
    }
}

#[test]
fn stop_after_ten_messages() {
    let rt = Builder::new_current_thread().enable_time().build().unwrap();
    let _guard = rt.enter();
    let pause = Duration::from_millis(10);
    let (started, mut started_recv) = oneshot_channel();
    let (completed, mut comped_recv) = oneshot_channel();
    let state = Counter {
        started: Some(started),
        completed,
        count: 0,
    };
    assert_eq!(Err(TryRecvError::Empty), started_recv.try_recv());
    assert_eq!(Err(TryRecvError::Empty), comped_recv.try_recv());
    let stream = Items::<()>(VecDeque::new());
    let (runner, mut client) = ActorBuilder::new(state).attach_stream(stream).spawn();
    let _client = client.clone();
    drop(rt.spawn(run(runner)));
    /* ----- Successful startup test ----- */
    assert!(
        rt.block_on(timeout(pause, started_recv)).is_ok(),
        "Actor failed to start!!"
    );
    /* ----- Processes stream test ----- */
    let mut counter = 0;
    while counter < 11 {
        let Some(Ok(num)) = rt.block_on(poll_fn(|cx| client.poll_next(cx))) else {
            panic!("Actor closed prematurely!!")
        };
        println!("Broadcast received: {num}");
        assert_eq!(num, counter);
        counter += 1;
    }
    /* ----- Successful shutdown test ----- */
    assert!(
        rt.block_on(timeout(pause, comped_recv)).is_ok(),
        "Actor failed to shutdown!!"
    );
    match rt.block_on(timeout(pause, poll_fn(|cx| client.poll_next(cx)))) {
        Err(_) => panic!("Actor failed to close stream!!"),
        Ok(msg) => assert_eq!(None, msg),
    }
}

struct Speaker;

impl ActorState for Speaker {
    type Message = ();
    type ActorKind = StreamActor<u64>;
}

#[test]
fn every_client_hears_what_is_broadcast() {
    let waker = futures::task::noop_waker();
    let mut cx = Context::from_waker(&waker);
    let (mut runner, mut client) = ActorBuilder::new(Speaker).spawn();
    let mut other = client.clone();
    assert_eq!(Poll::Pending, client.poll_next(&mut cx));
    runner.scheduler.broadcast(1u32);
    runner.scheduler.deref_mut().broadcast(2u32);
    assert_eq!(Poll::Ready(Some(Ok(1))), client.poll_next(&mut cx));
    assert_eq!(Poll::Ready(Some(Ok(1))), other.poll_next(&mut cx));
    assert_eq!(Poll::Ready(Some(Ok(2))), other.poll_next(&mut cx));
    assert_eq!(Poll::Ready(Some(Ok(2))), client.poll_next(&mut cx));
    assert_eq!(Poll::Pending, client.poll_next(&mut cx));
    let mut late = client.clone();
    assert_eq!(Poll::Pending, late.poll_next(&mut cx));
    runner.scheduler.broadcast(3u32);
    assert_eq!(Poll::Ready(Some(Ok(3))), late.poll_next(&mut cx));
    drop(runner);
    assert_eq!(Poll::Ready(Some(Ok(3))), client.poll_next(&mut cx));
    assert_eq!(Poll::Ready(None), client.poll_next(&mut cx));
    assert_eq!(Poll::Ready(None), client.poll_next(&mut cx));
    assert_eq!(Poll::Ready(None), late.poll_next(&mut cx));
}

#[test]
fn queue_offers_each_message_once() {
    let (send, mut recv) = tokio::sync::broadcast::channel::<u64>(4);
    let mut queue = OutboundQueue::new(send);
    queue.send(1u32);
    queue.send(2u32);
    assert_eq!(Ok(1), recv.try_recv());
    assert_eq!(Ok(2), recv.try_recv());
    assert_eq!(
        Err(tokio::sync::broadcast::error::TryRecvError::Empty),
        recv.try_recv()
    );
    drop(recv);
    queue.send(3u32);
}

#[test]
fn broadcasting_to_nobody_drops_the_message() {
    let waker = futures::task::noop_waker();
    let mut cx = Context::from_waker(&waker);
    let (mut runner, client) = ActorBuilder::new(Speaker).spawn();
    drop(client);
    runner.scheduler.broadcast(1u32);
    assert_eq!(Poll::Ready(None), runner.scheduler.poll_next(&mut cx));
}

#[test]
fn slow_client_learns_how_much_it_missed() {
    let waker = futures::task::noop_waker();
    let mut cx = Context::from_waker(&waker);
    let (mut runner, mut client) = ActorBuilder::new(Speaker).spawn();
    for i in 0..BACKLOG {
        runner.scheduler.broadcast(i as u64);
    }
    for i in 0..BACKLOG {
        assert_eq!(Poll::Ready(Some(Ok(i as u64))), client.poll_next(&mut cx));
    }
    for i in 0..100u64 {
        runner.scheduler.broadcast(i);
    }
    let Poll::Ready(Some(Err(missed))) = client.poll_next(&mut cx) else {
        panic!("Nothing was missed")
    };
    assert!(missed <= 100 - BACKLOG as u64);
    for i in missed..100 {
        assert_eq!(Poll::Ready(Some(Ok(i))), client.poll_next(&mut cx));
    }
    assert_eq!(Poll::Pending, client.poll_next(&mut cx));
}

#[test]
fn what_comes_out_of_a_channel_is_handed_on() {
    assert_eq!(Poll::<Option<Result<u8, u64>>>::Pending, hand_on(Poll::Pending));
    assert_eq!(Poll::<Option<Result<u8, u64>>>::Ready(None), hand_on(Poll::Ready(None)));
    assert_eq!(Poll::Ready(Some(Ok(7u8))), hand_on(Poll::Ready(Some(Ok(7u8)))));
    assert_eq!(
        Poll::<Option<Result<u8, u64>>>::Ready(Some(Err(4))),
        hand_on(Poll::Ready(Some(Err(BroadcastStreamRecvError::Lagged(4)))))
    );
}

#[test]
fn stream_actor_needs_a_source() {
    let (runner, _client) = ActorBuilder::new(Speaker).spawn();
    assert!(runner.scheduler.is_dead());
    let (runner, _client) = ActorBuilder::new(Speaker)
        .attach_stream(Items::<()>(VecDeque::new()))
        .spawn();
    assert!(!runner.scheduler.is_dead());
}
