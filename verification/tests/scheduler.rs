use std::collections::VecDeque;
use std::future::poll_fn;
use std::future::ready;
use std::future::Future;
use std::sync::atomic::AtomicBool;
use std::sync::atomic::AtomicUsize;
use std::sync::atomic::Ordering;
use std::sync::Arc;
use std::task::Context;
use std::task::Poll;

use troupe::compat::SendableFusedStream;
use troupe::compat::SendableStream;
use troupe::edges::are_distinct;
use troupe::pollset::Source;
use troupe::prelude::ActorBuilder;
use troupe::prelude::ActorState;
use troupe::prelude::Scheduler;
use troupe::prelude::SinkActor;
use troupe::prelude::SinkClient;
use troupe::scheduler::poll_to_completion;
use troupe::scheduler::Timer;

/// A stream that yields some items, and then waits for ever or closes.
struct Items<I> {
    items: VecDeque<I>,
    closes: bool,
}

impl<I> Items<I> {
    fn new(items: Vec<I>, closes: bool) -> Self {
        Items {
            items: VecDeque::from(items),
            closes,
        }
    }
}

impl<I: 'static + Send> SendableStream<I> for Items<I> {
    fn poll_next(&mut self, _: &mut Context<'_>) -> Poll<Option<I>> {
        match self.items.pop_front() {
            Some(item) => Poll::Ready(Some(item)),
            None if self.closes => Poll::Ready(None),
            None => Poll::Pending,
        }
    }
}

impl<I: 'static + Send> SendableFusedStream<I> for Items<I> {
    fn is_terminated(&self) -> bool {
        self.closes && self.items.is_empty()
    }
}

/// A future that completes once the flag is up.
fn flagged(flag: &Arc<AtomicBool>) -> impl Future<Output = ()> + Send {
    let flag = flag.clone();
    poll_fn(move |_| {
        if flag.load(Ordering::SeqCst) {
            Poll::Ready(())
        } else {
            Poll::Pending
        }
    })
}

fn scheduler() -> Scheduler<u32, SinkActor> {
    Scheduler::new(SinkActor {})
}

#[test]
fn actor_without_sources_is_dead() {
    let waker = futures::task::noop_waker();
    let mut cx = Context::from_waker(&waker);
    let mut scheduler = scheduler();
    assert!(scheduler.is_dead());
    assert_eq!(Poll::Ready(None), scheduler.poll_next(&mut cx));
}

#[test]
fn attached_stream_keeps_the_actor_alive() {
    let waker = futures::task::noop_waker();
    let mut cx = Context::from_waker(&waker);
    let mut scheduler = scheduler();
    scheduler.attach_stream(Items::new(vec![1u32, 2], false));
    assert!(!scheduler.is_dead());
    assert_eq!(Poll::Ready(Some(1)), scheduler.poll_next(&mut cx));
    assert_eq!(Poll::Ready(Some(2)), scheduler.poll_next(&mut cx));
    assert_eq!(Poll::Pending, scheduler.poll_next(&mut cx));
    assert!(!scheduler.is_dead());
}

#[test]
fn items_are_converted_into_messages() {
    let waker = futures::task::noop_waker();
    let mut cx = Context::from_waker(&waker);
    let mut scheduler = scheduler();
    scheduler.attach_stream(Items::new(vec![7u8], true));
    scheduler.queue_task(ready(7u16));
    assert_eq!(Poll::Ready(Some(7)), scheduler.poll_next(&mut cx));
    assert_eq!(Poll::Ready(Some(7)), scheduler.poll_next(&mut cx));
    assert_eq!(Poll::Ready(None), scheduler.poll_next(&mut cx));
}

#[test]
fn exhausted_actor_is_collected() {
    let waker = futures::task::noop_waker();
    let mut cx = Context::from_waker(&waker);
    let mut scheduler = scheduler();
    scheduler.attach_stream(Items::new(vec![1u32], true));
    scheduler.attach_stream(Items::new(Vec::<u32>::new(), true));
    scheduler.attach_stream(Items::new(vec![2u32], true));
    let mut seen = Vec::new();
    while let Poll::Ready(Some(msg)) = scheduler.poll_next(&mut cx) {
        assert!(!scheduler.is_dead());
        seen.push(msg);
    }
    seen.sort();
    assert_eq!(vec![1, 2], seen);
    assert!(scheduler.is_dead());
    assert_eq!(Poll::Ready(None), scheduler.poll_next(&mut cx));
}

#[test]
fn new_source_brings_the_actor_back() {
    let waker = futures::task::noop_waker();
    let mut cx = Context::from_waker(&waker);
    let mut scheduler = scheduler();
    scheduler.attach_stream(Items::new(Vec::<u32>::new(), true));
    assert_eq!(Poll::Ready(None), scheduler.poll_next(&mut cx));
    assert!(scheduler.is_dead());
    scheduler.queue_task(ready(3u32));
    assert!(!scheduler.is_dead());
    assert_eq!(Poll::Ready(Some(3)), scheduler.poll_next(&mut cx));
    assert!(scheduler.is_dead());
    scheduler.attach_stream(Items::new(vec![4u32], false));
    assert!(!scheduler.is_dead());
    assert_eq!(Poll::Ready(Some(4)), scheduler.poll_next(&mut cx));
}

#[test]
fn queued_futures_keep_the_actor_alive_until_they_resolve() {
    let waker = futures::task::noop_waker();
    let mut cx = Context::from_waker(&waker);
    let flag = Arc::new(AtomicBool::new(false));
    let mut scheduler = scheduler();
    let mut deadline = Box::pin(flagged(&flag));
    scheduler.queue_task(poll_fn(move |cx| deadline.as_mut().poll(cx).map(|()| 5u32)));
    scheduler.queue_task(ready(6u32));
    assert_eq!(Poll::Ready(Some(6)), scheduler.poll_next(&mut cx));
    assert!(!scheduler.is_dead());
    assert_eq!(Poll::Pending, scheduler.poll_next(&mut cx));
    assert!(!scheduler.is_dead());
    scheduler.queue_task(ready(7u32));
    assert_eq!(Poll::Ready(Some(7)), scheduler.poll_next(&mut cx));
    assert!(!scheduler.is_dead());
}

struct Waked(AtomicUsize);

impl futures::task::ArcWake for Waked {
    fn wake_by_ref(this: &Arc<Self>) {
        this.0.fetch_add(1, Ordering::SeqCst);
    }
}

#[test]
fn waiting_scheduler_wakes_its_task() {
    let counting = Arc::new(Waked(AtomicUsize::new(0)));
    let waker = futures::task::waker(counting.clone());
    let mut cx = Context::from_waker(&waker);
    let (send, mut recv) = troupe::oneshot_channel::<u32>();
    let mut scheduler = scheduler();
    scheduler.queue_task(poll_fn(move |cx| {
        std::pin::Pin::new(&mut recv).poll(cx).map(|r| r.unwrap())
    }));
    assert_eq!(Poll::Pending, scheduler.poll_next(&mut cx));
    let woken = counting.0.load(Ordering::SeqCst);
    send.send(9).unwrap();
    assert_eq!(woken + 1, counting.0.load(Ordering::SeqCst));
    assert_eq!(Poll::Ready(Some(9)), scheduler.poll_next(&mut cx));
    assert_eq!(Poll::Ready(None), scheduler.poll_next(&mut cx));
}

#[test]
fn managed_futures_run_but_do_not_keep_the_actor_alive() {
    let waker = futures::task::noop_waker();
    let mut cx = Context::from_waker(&waker);
    let done = Arc::new(AtomicBool::new(false));
    let mut scheduler = scheduler();
    let noted = done.clone();
    scheduler.manage_future(poll_fn(move |_| {
        noted.store(true, Ordering::SeqCst);
        Poll::Ready("dropped")
    }));
    assert!(scheduler.is_dead());
    assert_eq!(Poll::Ready(None), scheduler.poll_next(&mut cx));
    assert!(!done.load(Ordering::SeqCst));
    scheduler.attach_stream(Items::new(Vec::<u32>::new(), false));
    assert_eq!(Poll::Pending, scheduler.poll_next(&mut cx));
    assert!(done.load(Ordering::SeqCst));
}

#[test]
fn exhausted_actor_leaves_its_managed_futures_behind() {
    let waker = futures::task::noop_waker();
    let mut cx = Context::from_waker(&waker);
    let flag = Arc::new(AtomicBool::new(false));
    let mut scheduler = scheduler();
    scheduler.manage_future(flagged(&flag));
    scheduler.manage_future(ready(1));
    let mut rest = scheduler.finalize().unwrap();
    assert!(!rest.is_empty());
    assert_eq!(Poll::Pending, poll_to_completion(&mut rest, &mut cx));
    assert!(!rest.is_empty());
    let mut rest = {
        let mut again = self::scheduler();
        again.manage_future(flagged(&flag));
        again.finalize().unwrap()
    };
    flag.store(true, Ordering::SeqCst);
    assert_eq!(Poll::Ready(()), poll_to_completion(&mut rest, &mut cx));
    assert!(rest.is_empty());
}

#[test]
fn shutdown_drops_everything() {
    let waker = futures::task::noop_waker();
    let mut cx = Context::from_waker(&waker);
    let held = Arc::new(AtomicBool::new(true));
    let mut scheduler = scheduler();
    scheduler.attach_stream(Items::new(vec![1u32], false));
    scheduler.queue_task(ready(2u32));
    scheduler.manage_future(flagged(&held));
    assert_eq!(2, Arc::strong_count(&held));
    scheduler.shutdown();
    assert!(scheduler.is_dead());
    assert_eq!(Poll::Ready(None), scheduler.poll_next(&mut cx));
    assert!(scheduler.finalize().is_none());
    assert_eq!(1, Arc::strong_count(&held));
}

#[test]
fn shutdown_and_finish_keeps_managed_futures() {
    let waker = futures::task::noop_waker();
    let mut cx = Context::from_waker(&waker);
    let held = Arc::new(AtomicBool::new(true));
    let mut scheduler = scheduler();
    scheduler.attach_stream(Items::new(vec![1u32], false));
    scheduler.manage_future(flagged(&held));
    scheduler.shutdown_and_finish();
    assert!(scheduler.is_dead());
    assert_eq!(Poll::Ready(None), scheduler.poll_next(&mut cx));
    let mut rest = scheduler.finalize().unwrap();
    assert_eq!(2, Arc::strong_count(&held));
    assert_eq!(Poll::Ready(()), poll_to_completion(&mut rest, &mut cx));
    assert_eq!(1, Arc::strong_count(&held));
}

#[test]
fn scheduled_message_arrives_after_its_deadline() {
    let waker = futures::task::noop_waker();
    let mut cx = Context::from_waker(&waker);
    let (send, recv) = troupe::oneshot_channel::<()>();
    let mut recv = recv;
    let mut scheduler = scheduler();
    scheduler.schedule(
        poll_fn(move |cx| std::pin::Pin::new(&mut recv).poll(cx).map(|_| ())),
        8u8,
    );
    assert!(!scheduler.is_dead());
    assert_eq!(Poll::Pending, scheduler.poll_next(&mut cx));
    assert_eq!(Poll::Pending, scheduler.poll_next(&mut cx));
    send.send(()).unwrap();
    assert_eq!(Poll::Ready(Some(8)), scheduler.poll_next(&mut cx));
    assert!(scheduler.is_dead());
}

#[test]
fn timer_returns_its_message_once_the_deadline_has_passed() {
    let waker = futures::task::noop_waker();
    let mut cx = Context::from_waker(&waker);
    let flag = Arc::new(AtomicBool::new(false));
    let mut timer = Timer::new(flagged(&flag), "message");
    assert_eq!(Poll::Pending, timer.poll(&mut cx));
    assert_eq!(Poll::Pending, timer.poll(&mut cx));
    flag.store(true, Ordering::SeqCst);
    assert_eq!(Poll::Ready("message"), timer.poll(&mut cx));
}

#[test]
fn closed_stream_is_not_polled_again() {
    let waker = futures::task::noop_waker();
    let mut cx = Context::from_waker(&waker);
    let polls = Arc::new(AtomicUsize::new(0));
    let mut source = Source::new(Revived(polls.clone()));
    assert_eq!(Poll::Ready(Some(0u32)), source.poll_next(&mut cx));
    assert_eq!(Poll::<Option<u32>>::Ready(None), source.poll_next(&mut cx));
    assert_eq!(Poll::<Option<u32>>::Ready(None), source.poll_next(&mut cx));
    assert_eq!(2, polls.load(Ordering::SeqCst));

    let polls = Arc::new(AtomicUsize::new(0));
    let mut scheduler = scheduler();
    scheduler.attach_stream(Revived(polls.clone()));
    scheduler.attach_stream(Items::new(Vec::<u32>::new(), false));
    assert_eq!(Poll::Ready(Some(0)), scheduler.poll_next(&mut cx));
    for _ in 0..5 {
        assert_eq!(Poll::Pending, scheduler.poll_next(&mut cx));
    }
    assert_eq!(2, polls.load(Ordering::SeqCst));
}

/// A stream that yields an item, closes, and would then yield others.
struct Revived(Arc<AtomicUsize>);

impl SendableStream<u32> for Revived {
    fn poll_next(&mut self, _: &mut Context<'_>) -> Poll<Option<u32>> {
        match self.0.fetch_add(1, Ordering::SeqCst) {
            1 => Poll::Ready(None),
            polls => Poll::Ready(Some(polls as u32)),
        }
    }
}

impl SendableFusedStream<u32> for Revived {
    fn is_terminated(&self) -> bool {
        false
    }
}

#[test]
fn everything_that_comes_is_got_once() {
    let waker = futures::task::noop_waker();
    let mut cx = Context::from_waker(&waker);
    let mut scheduler = scheduler();
    scheduler.attach_stream(Items::new(vec![1u32, 2, 3], true));
    scheduler.attach_stream(Items::new(vec![11u32, 12, 13], true));
    scheduler.queue_task(ready(21u32));
    scheduler.schedule(ready(()), 22u32);
    scheduler.schedule(ready(()), 23u8);
    scheduler.manage_future(ready(31u32));
    let mut seen = Vec::new();
    while let Poll::Ready(Some(msg)) = scheduler.poll_next(&mut cx) {
        seen.push(msg);
    }
    let of = |low: u32, high: u32| -> Vec<u32> {
        seen.iter().copied().filter(|msg| (low..high).contains(msg)).collect()
    };
    assert_eq!(vec![1, 2, 3], of(0, 10));
    assert_eq!(vec![11, 12, 13], of(10, 20));
    let mut futures = of(20, 30);
    futures.sort();
    assert_eq!(vec![21, 22, 23], futures);
    assert_eq!(9, seen.len());
    assert!(scheduler.is_dead());
}

struct Idle;

impl ActorState for Idle {
    type Message = &'static str;
    type ActorKind = SinkActor;
}

#[test]
fn edges_are_kept_by_type() {
    let waker = futures::task::noop_waker();
    let mut cx = Context::from_waker(&waker);
    let (mut first, first_client) = ActorBuilder::new(Idle).spawn();
    let (mut second, second_client) = ActorBuilder::new(Idle).spawn();
    let mut scheduler = scheduler();
    assert!(scheduler.get_edge::<&'static str>().is_none());
    assert!(scheduler.get_edge_mut::<&'static str>().is_none());
    scheduler.add_edge(first_client);
    assert!(scheduler.get_edge::<u8>().is_none());
    assert!(scheduler.get_edge::<&'static str>().unwrap().send("one"));
    scheduler.add_edge(second_client);
    assert!(scheduler.get_edge::<&'static str>().unwrap().send("two"));
    let other: SinkClient<&'static str> = scheduler.get_edge::<&'static str>().unwrap().clone();
    *scheduler.get_edge_mut::<&'static str>().unwrap() = other;
    assert!(scheduler.get_edge::<&'static str>().unwrap().send("three"));
    scheduler.remove_edge::<&'static str>();
    assert!(scheduler.get_edge::<&'static str>().is_none());
    assert_eq!(Poll::Ready(Some("one")), first.scheduler.poll_next(&mut cx));
    assert_eq!(Poll::Ready(None), first.scheduler.poll_next(&mut cx));
    assert_eq!(Poll::Ready(Some("two")), second.scheduler.poll_next(&mut cx));
    assert_eq!(Poll::Ready(Some("three")), second.scheduler.poll_next(&mut cx));
    assert_eq!(Poll::Ready(None), second.scheduler.poll_next(&mut cx));
}

#[test]
fn types_are_told_apart() {
    assert!(are_distinct::<Vec<u8>, Vec<u16>>());
    assert!(are_distinct::<SinkClient<u8>, SinkClient<u16>>());
    assert!(!are_distinct::<Vec<u8>, Vec<u8>>());
}

#[test]
fn containers_are_kept_by_type() {
    let mut scheduler = scheduler();
    assert_eq!(None, scheduler.get_multi_edge::<Vec<u8>>());
    assert_eq!(None, scheduler.get_multi_edge_mut::<Vec<u8>>());
    scheduler.add_multi_edge(vec![1u8]);
    scheduler.add_multi_edge(String::from("other"));
    assert_eq!(Some(&vec![1u8]), scheduler.get_multi_edge());
    scheduler.get_multi_edge_mut::<Vec<u8>>().unwrap().push(2);
    assert_eq!(Some(&vec![1u8, 2]), scheduler.get_multi_edge());
    scheduler.add_multi_edge(vec![3u8]);
    assert_eq!(Some(&vec![3u8]), scheduler.get_multi_edge());
    scheduler.remove_multi_edge::<Vec<u8>>();
    assert_eq!(None, scheduler.get_multi_edge::<Vec<u8>>());
    assert_eq!(Some(&String::from("other")), scheduler.get_multi_edge());
}

struct Listener;

impl ActorState for Listener {
    type Message = u64;
    type ActorKind = SinkActor;
}

#[test]
fn builder_hands_everything_to_the_actor() {
    let waker = futures::task::noop_waker();
    let mut cx = Context::from_waker(&waker);
    let (mut runner, client) = ActorBuilder::new(Listener)
        .attach_stream(Items::new(vec![40u32], true))
        .config(())
        .attach_stream(Items::new(vec![50u8, 60], true))
        .spawn();
    assert!(client.send(70u16));
    drop(client);
    let mut seen = Vec::new();
    while let Poll::Ready(Some(msg)) = runner.scheduler.poll_next(&mut cx) {
        seen.push(msg);
    }
    seen.sort();
    assert_eq!(vec![40, 50, 60, 70], seen);
    assert!(runner.scheduler.is_dead());
}
