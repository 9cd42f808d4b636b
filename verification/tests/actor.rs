use std::future::ready;
use std::future::Future;
use std::future::Ready;
use std::pin::Pin;
use std::sync::atomic::AtomicUsize;
use std::sync::atomic::Ordering;
use std::sync::Arc;
use std::task::Context;
use std::task::Poll;

use troupe::actor::Actor;
use troupe::actor::ActorBuilder;
use troupe::actor::ActorState;
use troupe::actor::Step;

struct Tally {
    total: Arc<AtomicUsize>,
}

impl ActorState for Tally {
    type Message = usize;
}

fn tally() -> (Tally, Arc<AtomicUsize>) {
    let total = Arc::new(AtomicUsize::new(0));
    (
        Tally {
            total: total.clone(),
        },
        total,
    )
}

fn count(tally: &mut Tally, msg: usize) {
    tally.total.fetch_add(msg, Ordering::SeqCst);
}

type Behavior = fn(&Tally) -> Ready<()>;

#[test]
fn messages_are_acted_on() {
    let waker = futures::task::noop_waker();
    let mut cx = Context::from_waker(&waker);
    let (state, total) = tally();
    let (sender, actor) = ActorBuilder::<_, _, Behavior, Behavior>::new(state, count).build();
    let mut performance = actor.perform();
    assert!(matches!(performance.step(&mut cx), Step::Waited));
    sender.send(3).unwrap();
    sender.send(4).unwrap();
    assert!(matches!(performance.step(&mut cx), Step::Received));
    assert_eq!(0, total.load(Ordering::SeqCst));
    assert!(matches!(performance.step(&mut cx), Step::Acted));
    assert_eq!(3, total.load(Ordering::SeqCst));
    assert!(matches!(performance.step(&mut cx), Step::Received));
    assert!(matches!(performance.step(&mut cx), Step::Acted));
    assert_eq!(7, total.load(Ordering::SeqCst));
    assert!(matches!(performance.step(&mut cx), Step::Waited));
    drop(sender);
    assert!(matches!(performance.step(&mut cx), Step::Starved));
    assert_eq!(7, total.load(Ordering::SeqCst));
}

#[test]
fn behaviors_repeat() {
    let waker = futures::task::noop_waker();
    let mut cx = Context::from_waker(&waker);
    let (state, total) = tally();
    let (sender, actor) = Actor::<_, _, Behavior, Behavior>::builder(state, count)
        .chain_behavior(
            |_| ready(()),
            |tally| {
                tally.total.fetch_add(10, Ordering::SeqCst);
                ready(())
            },
        )
        .build();
    drop(sender);
    let mut performance = actor.perform();
    for round in 1..5 {
        assert!(matches!(performance.step(&mut cx), Step::Roused(0)));
        assert_eq!(10 * round, total.load(Ordering::SeqCst));
        assert!(matches!(performance.step(&mut cx), Step::Repeated(0)));
        assert_eq!(10 * round, total.load(Ordering::SeqCst));
    }
}

/// A future that is polled once in vain.
struct Late(bool);

impl Future for Late {
    type Output = ();

    fn poll(mut self: Pin<&mut Self>, _: &mut Context<'_>) -> Poll<()> {
        if self.0 {
            Poll::Ready(())
        } else {
            self.0 = true;
            Poll::Pending
        }
    }
}

#[test]
fn behavior_is_not_interrupted_by_messages() {
    let waker = futures::task::noop_waker();
    let mut cx = Context::from_waker(&waker);
    let (state, total) = tally();
    let (sender, actor) = ActorBuilder::new(state, count)
        .chain_behavior(|_: &Tally| ready(()), |_: &Tally| Late(false))
        .build();
    let mut performance = actor.perform();
    assert!(matches!(performance.step(&mut cx), Step::Roused(0)));
    sender.send(5).unwrap();
    assert!(matches!(performance.step(&mut cx), Step::Waited));
    assert_eq!(0, total.load(Ordering::SeqCst));
    assert!(matches!(performance.step(&mut cx), Step::Repeated(0)));
    assert_eq!(0, total.load(Ordering::SeqCst));
    let mut acted = false;
    while !acted {
        acted = matches!(performance.step(&mut cx), Step::Acted);
    }
    assert_eq!(5, total.load(Ordering::SeqCst));
}

#[test]
fn each_behavior_has_its_turn() {
    let waker = futures::task::noop_waker();
    let mut cx = Context::from_waker(&waker);
    let (state, total) = tally();
    let step = |amount: usize| {
        move |tally: &Tally| {
            tally.total.fetch_add(amount, Ordering::SeqCst);
            ready(())
        }
    };
    let (_sender, actor) = ActorBuilder::new(state, count)
        .chain_behavior(step(0), step(1))
        .chain_behavior(step(0), step(100))
        .build();
    let mut performance = actor.perform();
    let mut seen = Vec::new();
    for _ in 0..2 {
        let Step::Roused(number) = performance.step(&mut cx) else {
            panic!("No behavior was roused")
        };
        let Step::Repeated(repeated) = performance.step(&mut cx) else {
            panic!("No behavior was done")
        };
        assert_eq!(number, repeated);
        seen.push(number);
    }
    seen.sort();
    assert_eq!(vec![0, 1], seen);
    assert_eq!(101, total.load(Ordering::SeqCst));
}

#[test]
fn halves_of_a_behavior_take_turns() {
    let waker = futures::task::noop_waker();
    let mut cx = Context::from_waker(&waker);
    let (state, _total) = tally();
    let (whens, thens) = (Arc::new(AtomicUsize::new(0)), Arc::new(AtomicUsize::new(0)));
    let (when, then) = (whens.clone(), thens.clone());
    let (sender, actor) = ActorBuilder::new(state, count)
        .chain_behavior(
            move |_: &Tally| {
                when.fetch_add(1, Ordering::SeqCst);
                ready(())
            },
            move |_: &Tally| {
                then.fetch_add(1, Ordering::SeqCst);
                Late(false)
            },
        )
        .build();
    let mut performance = actor.perform();
    let mut ahead = 1;
    for _ in 0..50 {
        sender.send(1).unwrap();
        match performance.step(&mut cx) {
            Step::Roused(0) => ahead = 0,
            Step::Repeated(0) => ahead = 1,
            _ => {}
        }
        assert_eq!(
            whens.load(Ordering::SeqCst),
            thens.load(Ordering::SeqCst) + ahead
        );
    }
    assert!(thens.load(Ordering::SeqCst) > 0);
}
