use std::collections::VecDeque;
use std::future::poll_fn;
use std::future::Future;
use std::task::Context;
use std::task::Poll;
use std::time::Duration;

use tokio::runtime::Builder;
use tokio::sync::oneshot::error::TryRecvError;
use tokio::time::timeout;
use troupe::compat::SendableFusedStream;
use troupe::compat::SendableStream;
use troupe::prelude::oneshot_channel;
use troupe::prelude::ActorBuilder;
use troupe::prelude::ActorState;
use troupe::prelude::JointActor;
use troupe::prelude::OneshotSender;
use troupe::prelude::Permanent;
use troupe::prelude::Scheduler;
use troupe::runner::first_stage;
use troupe::runner::next_stage;
use troupe::runner::ActorRunner;
use troupe::runner::Outcome;
use troupe::runner::Stage;

#[derive(Debug, PartialEq, Eq)]
struct Started;

#[derive(Debug, Clone, PartialEq, Eq)]
struct Processed;

#[derive(Debug, PartialEq, Eq)]
struct Completed;

struct DummyJoint {
    started: Option<OneshotSender<Started>>,
    completed: OneshotSender<Completed>,
}

impl ActorState for DummyJoint {
    type Message = Processed;
    type ActorKind = JointActor<Processed>;
}

impl DummyJoint {
    fn start_up(&mut self) {
        self.started.take().unwrap().send(Started).unwrap();
    }

    fn process(&mut self, scheduler: &mut Scheduler<Processed, JointActor<Processed>>, msg: Processed) {
        scheduler.broadcast(msg);
    }

    fn finalize(self) {
        self.completed.send(Completed).unwrap();
    }
}

/// Runs an actor from its start to its end.
fn run(runner: ActorRunner<DummyJoint>) -> impl Future<Output = ()> + Send {
    let mut stage = first_stage();
    let mut state = Some(runner.state);
    let mut scheduler = Some(runner.scheduler);
    poll_fn(move |cx| loop {
        let outcome = match std::mem::replace(&mut stage, Stage::Receive) {
            Stage::StartUp => {
                state.as_mut().unwrap().start_up();
                Outcome::StartedUp
            }
            Stage::Receive => match scheduler.as_mut().unwrap().poll_next(cx) {
                Poll::Ready(msg) => Outcome::Received(msg),
                Poll::Pending => return Poll::Pending,
            },
            Stage::Process(msg) => {
                state.as_mut().unwrap().process(scheduler.as_mut().unwrap(), msg);
                Outcome::Processed
            }
            Stage::Finalize => {
                state.take().unwrap().finalize();
                Outcome::Finalized
            }
            Stage::Close => {
                drop(scheduler.take().unwrap().finalize());
                return Poll::Ready(());
            }
        };
        stage = next_stage(outcome);
    })
}

/// A stream that yields some items and then closes.
struct Items<I>(VecDeque<I>);

impl<I: 'static + Send> SendableStream<I> for Items<I> {
    fn poll_next(&mut self, _: &mut Context<'_>) -> Poll<Option<I>> {
        Poll::Ready(self.0.pop_front())
    }
}

impl<I: 'static + Send> SendableFusedStream<I> for Items<I> {
    fn is_terminated(&self) -> bool {
        self.0.is_empty()
    }
}

#[test]
fn are_send() {
    fn is_send<T: Send>() {}

    is_send::<DummyJoint>();
    is_send::<JointActor<Processed>>();
    is_send::<Permanent>();
    is_send::<Started>();
    is_send::<Processed>();
    is_send::<Completed>();
}

#[test]
fn joint_startup_and_teardown() {
    let rt = Builder::new_current_thread().enable_time().build().unwrap();
    let _guard = rt.enter();
    let sleep = Duration::from_millis(10);
    let (started, mut started_recv) = oneshot_channel();
    let (completed, mut comped_recv) = oneshot_channel();
    let state = DummyJoint {
        started: Some(started),
        completed,
    };
    assert_eq!(Err(TryRecvError::Empty), started_recv.try_recv());
    assert_eq!(Err(TryRecvError::Empty), comped_recv.try_recv());
    let stream = Items(VecDeque::from(vec![Processed]));
    let (runner, mut client) = ActorBuilder::new(state).attach_stream(stream).spawn();
    drop(rt.spawn(run(runner)));
    /* ----- Successful startup test ----- */
    assert!(
        rt.block_on(timeout(sleep, started_recv)).is_ok(),
        "Actor failed to start!!"
    );
    /* ----- Processes stream test ----- */
    match rt.block_on(timeout(sleep, poll_fn(|cx| client.poll_next(cx)))) {
        Err(_) => panic!("Actor failed to process message"),
        Ok(msg) => assert_eq!(Some(Ok(Processed)), msg),
    }
    assert!(
        rt.block_on(timeout(sleep, &mut comped_recv)).is_err(),
        "Actor closed unexpectedly early!!"
    );
    assert!(client.send(Processed));
    match rt.block_on(timeout(sleep, poll_fn(|cx| client.poll_next(cx)))) {
        Err(_) => panic!("Actor failed to process message"),
        Ok(msg) => assert_eq!(Some(Ok(Processed)), msg),
    }
    /* ----- Successful shutdown test ----- */
    let (sink, mut stream) = client.split();
    drop(sink);
    assert!(
        rt.block_on(timeout(sleep, comped_recv)).is_ok(),
        "Actor failed to shutdown!!"
    );
    match rt.block_on(timeout(sleep, poll_fn(|cx| stream.poll_next(cx)))) {
        Err(_) => panic!("Actor stream did not close"),
        Ok(msg) => assert_eq!(None, msg),
    }
}

#[test]
fn parts_of_a_joint_client_share_its_actor() {
    let waker = futures::task::noop_waker();
    let mut cx = Context::from_waker(&waker);
    let (started, _started_recv) = oneshot_channel();
    let (completed, _comped_recv) = oneshot_channel();
    let state = DummyJoint {
        started: Some(started),
        completed,
    };
    let (mut runner, mut client) = ActorBuilder::new(state).spawn();
    let sink = client.sink();
    let mut stream = client.stream();
    let mut copy = client.clone();
    assert_eq!(Poll::Pending, runner.scheduler.poll_next(&mut cx));
    assert!(sink.send(Processed));
    assert!(copy.send(Processed));
    assert_eq!(Poll::Ready(Some(Processed)), runner.scheduler.poll_next(&mut cx));
    assert_eq!(Poll::Ready(Some(Processed)), runner.scheduler.poll_next(&mut cx));
    assert_eq!(Poll::Pending, runner.scheduler.poll_next(&mut cx));
    runner.scheduler.deref_mut().broadcast(Processed);
    assert_eq!(Poll::Ready(Some(Ok(Processed))), stream.poll_next(&mut cx));
    assert_eq!(Poll::Ready(Some(Ok(Processed))), copy.poll_next(&mut cx));
    assert_eq!(Poll::Ready(Some(Ok(Processed))), client.poll_next(&mut cx));
    assert_eq!(Poll::Pending, client.poll_next(&mut cx));
    assert!(!client.is_closed());
    drop(runner);
    assert!(client.is_closed());
    assert!(!client.send(Processed));
    assert_eq!(Poll::Ready(None), client.poll_next(&mut cx));
}

#[derive(Debug)]
struct Question(u32, OneshotSender<u32>);

impl From<(u32, OneshotSender<u32>)> for Question {
    fn from((number, send): (u32, OneshotSender<u32>)) -> Self {
        Question(number, send)
    }
}

struct Doubler;

impl ActorState for Doubler {
    type Message = Question;
    type ActorKind = JointActor<u32>;
}

#[test]
fn joint_client_tracks_responses() {
    let waker = futures::task::noop_waker();
    let mut cx = Context::from_waker(&waker);
    let (mut runner, client) = ActorBuilder::new(Doubler).spawn();
    let mut tracker = client.track::<u32, u32>(21);
    assert_eq!(Poll::Pending, tracker.poll(&mut cx));
    let Poll::Ready(Some(Question(number, send))) = runner.scheduler.poll_next(&mut cx) else {
        panic!("No question arrived")
    };
    assert_eq!(21, number);
    send.send(2 * number).unwrap();
    assert_eq!(Poll::Ready(Some(42)), tracker.poll(&mut cx));
}
