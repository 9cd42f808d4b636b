use std::collections::HashMap;
use std::future::poll_fn;
use std::future::Future;
use std::task::Context;
use std::task::Poll;
use std::time::Duration;

use tokio::runtime::Builder;
use tokio::sync::oneshot::error::TryRecvError;
use tokio::time::timeout;
use troupe::prelude::oneshot_channel;
use troupe::prelude::ActorBuilder;
use troupe::prelude::ActorState;
use troupe::prelude::OneshotSender;
use troupe::prelude::SinkActor;
use troupe::prelude::SinkClient;
use troupe::runner::first_stage;
use troupe::runner::next_stage;
use troupe::runner::ActorRunner;
use troupe::runner::Outcome;
use troupe::runner::Stage;

/// What the actors below do with a message.
trait Process: ActorState<ActorKind = SinkActor> {
    fn start_up(&mut self) {}

    fn process(&mut self, msg: Self::Message);

    fn finalize(self) {}
}

/// Runs an actor from its start to its end.
fn run<A: Process>(runner: ActorRunner<A>) -> impl Future<Output = ()> + Send {
    let mut stage = first_stage();
    let mut state = Some(runner.state);
    let mut scheduler = Some(runner.scheduler);
    poll_fn(move |cx| loop {
        let outcome = match std::mem::replace(&mut stage, Stage::Receive) {
            Stage::StartUp => {
                state.as_mut().unwrap().start_up();
                Outcome::StartedUp
            }
            Stage::Receive => match scheduler.as_mut().unwrap().poll_next(cx) {
                Poll::Ready(msg) => Outcome::Received(msg),
                Poll::Pending => return Poll::Pending,
            },
            Stage::Process(msg) => {
                state.as_mut().unwrap().process(msg);
                Outcome::Processed
            }
            Stage::Finalize => {
                state.take().unwrap().finalize();
                Outcome::Finalized
            }
            Stage::Close => {
                drop(scheduler.take().unwrap().finalize());
                return Poll::Ready(());
            }
        };
        stage = next_stage(outcome);
    })
}

#[derive(Debug, PartialEq, Eq)]
struct Started;

#[derive(Debug, PartialEq, Eq)]
struct Completed;

struct DummySink {
    started: Option<OneshotSender<Started>>,
    completed: OneshotSender<Completed>,
}

impl ActorState for DummySink {
    type Message = ();
    type ActorKind = SinkActor;
}

impl Process for DummySink {
    fn start_up(&mut self) {
        self.started.take().unwrap().send(Started).unwrap();
    }

    fn process(&mut self, (): ()) {}

    fn finalize(self) {
        self.completed.send(Completed).unwrap();
    }
}

#[test]
fn sink_startup_and_teardown() {
    let rt = Builder::new_current_thread().enable_time().build().unwrap();
    let _guard = rt.enter();
    let sleep = Duration::from_millis(10);
    let (started, mut started_recv) = oneshot_channel();
    let (completed, mut comped_recv) = oneshot_channel();
    let state = DummySink {
        started: Some(started),
        completed,
    };
    assert_eq!(Err(TryRecvError::Empty), started_recv.try_recv());
    assert_eq!(Err(TryRecvError::Empty), comped_recv.try_recv());
    let (runner, client) = ActorBuilder::new(state).spawn();
    drop(rt.spawn(run(runner)));
    /* ----- Successful startup test ----- */
    assert!(
        rt.block_on(timeout(sleep, started_recv)).is_ok(),
        "Actor failed to start!!"
    );
    /* ----- Stablized actor test ----- */
    assert!(
        rt.block_on(timeout(sleep, &mut comped_recv)).is_err(),
        "Actor closed unexpectedly early!!"
    );
    assert!(client.send(()));
    /* ----- Successful shutdown test ----- */
    drop(client);
    assert!(
        rt.block_on(timeout(sleep, comped_recv)).is_ok(),
        "Actor failed to shutdown!!"
    );
}

/// An actor that counts the requests that it received.
#[derive(Default)]
struct Ping {
    count: usize,
}

enum PingCommand {
    Ping,
    RequestAndRespond(OneshotSender<usize>),
}

impl From<()> for PingCommand {
    fn from((): ()) -> Self {
        PingCommand::Ping
    }
}

impl From<((), OneshotSender<usize>)> for PingCommand {
    fn from(((), send): ((), OneshotSender<usize>)) -> Self {
        PingCommand::RequestAndRespond(send)
    }
}

impl ActorState for Ping {
    type Message = PingCommand;
    type ActorKind = SinkActor;
}

impl Process for Ping {
    fn process(&mut self, msg: PingCommand) {
        match msg {
            PingCommand::Ping => self.count += 1,
            PingCommand::RequestAndRespond(send) => {
                let resp = self.count;
                self.count += 1;
                let _ = send.send(resp);
            }
        }
    }
}

#[test]
fn messages_are_processed_in_the_order_they_are_sent() {
    let rt = Builder::new_current_thread().build().unwrap();
    let (runner, client) = ActorBuilder::new(Ping::default()).spawn();
    drop(rt.spawn(run(runner)));
    assert!(client.send(()));
    let mut first = client.track::<(), usize>(());
    let mut second = client.track::<(), usize>(());
    let other_client = client.clone();
    assert_eq!(Some(1), rt.block_on(poll_fn(|cx| first.poll(cx))));
    assert_eq!(Some(2), rt.block_on(poll_fn(|cx| second.poll(cx))));
    drop(other_client);
    let mut third = client.track::<(), usize>(());
    assert_eq!(Some(3), rt.block_on(poll_fn(|cx| third.poll(cx))));
}

/// A cache that keeps strings under numbers.
#[derive(Default)]
struct CacheState(HashMap<usize, String>);

enum CacheCommand {
    Insert(usize, String),
    Get(usize, OneshotSender<Option<String>>),
    Delete(usize),
}

impl From<(usize, String)> for CacheCommand {
    fn from((key, val): (usize, String)) -> Self {
        CacheCommand::Insert(key, val)
    }
}

impl From<(usize, OneshotSender<Option<String>>)> for CacheCommand {
    fn from((key, send): (usize, OneshotSender<Option<String>>)) -> Self {
        CacheCommand::Get(key, send)
    }
}

impl From<usize> for CacheCommand {
    fn from(key: usize) -> Self {
        CacheCommand::Delete(key)
    }
}

impl ActorState for CacheState {
    type Message = CacheCommand;
    type ActorKind = SinkActor;
}

impl Process for CacheState {
    fn process(&mut self, msg: CacheCommand) {
        match msg {
            CacheCommand::Insert(key, val) => {
                self.0.insert(key, val);
            }
            CacheCommand::Get(key, send) => {
                let _ = send.send(self.0.get(&key).cloned());
            }
            CacheCommand::Delete(key) => {
                self.0.remove(&key);
            }
        }
    }
}

#[test]
fn cache_answers_what_was_inserted() {
    let rt = Builder::new_current_thread().build().unwrap();
    let (runner, client) = ActorBuilder::new(CacheState::default()).spawn();
    let client: SinkClient<CacheCommand> = client;
    drop(rt.spawn(run(runner)));
    assert!(client.send((42, String::from("Hello World"))));
    let mut tracker = client.track::<usize, Option<String>>(42);
    assert!(client.send(42));
    let mut late = client.track::<usize, Option<String>>(42);
    assert_eq!(
        Some(Some(String::from("Hello World"))),
        rt.block_on(poll_fn(|cx| tracker.poll(cx)))
    );
    assert_eq!(Some(None), rt.block_on(poll_fn(|cx| late.poll(cx))));
}

#[test]
fn clients_notice_that_the_actor_is_gone() {
    let waker = futures::task::noop_waker();
    let mut cx = Context::from_waker(&waker);
    let (runner, client) = ActorBuilder::new(Ping::default()).spawn();
    assert!(!client.is_closed());
    drop(runner);
    assert!(client.is_closed());
    assert!(!client.send(()));
    let mut tracker = client.track::<(), usize>(());
    assert_eq!(Poll::Ready(None), tracker.poll(&mut cx));
}

#[test]
fn tracker_waits_for_its_response() {
    let waker = futures::task::noop_waker();
    let mut cx = Context::from_waker(&waker);
    let (mut runner, client) = ActorBuilder::new(Ping::default()).spawn();
    let mut answered = client.track::<(), usize>(());
    let mut ignored = client.track::<(), usize>(());
    assert_eq!(Poll::Pending, answered.poll(&mut cx));
    assert_eq!(Poll::Pending, ignored.poll(&mut cx));
    match runner.scheduler.poll_next(&mut cx) {
        Poll::Ready(Some(msg)) => runner.state.process(msg),
        _ => panic!("No request arrived"),
    }
    assert_eq!(Poll::Ready(Some(0)), answered.poll(&mut cx));
    drop(runner.scheduler.poll_next(&mut cx));
    assert_eq!(Poll::Ready(None), ignored.poll(&mut cx));
}

#[test]
fn sink_actor_lives_as_long_as_its_clients() {
    let waker = futures::task::noop_waker();
    let mut cx = Context::from_waker(&waker);
    let (mut runner, client) = ActorBuilder::new(Ping::default()).spawn();
    let other_client = client.clone();
    assert!(!runner.scheduler.is_dead());
    drop(client);
    assert!(runner.scheduler.poll_next(&mut cx).is_pending());
    assert!(!runner.scheduler.is_dead());
    drop(other_client);
    assert!(matches!(runner.scheduler.poll_next(&mut cx), Poll::Ready(None)));
    assert!(runner.scheduler.is_dead());
}

#[test]
fn sink_actor_broadcasts_nothing() {
    let (mut runner, _client) = ActorBuilder::new(Ping::default()).spawn();
    runner.scheduler.broadcast(());
    assert!(!runner.scheduler.is_dead());
}
