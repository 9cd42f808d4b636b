use std::task::Context;
use std::task::Poll;

use troupe::compat::SendableStream;
use troupe::compat::SendableWrapper;
use troupe::ensemble::PanicCatcher;
use troupe::runner::first_stage;
use troupe::runner::next_stage;
use troupe::runner::Outcome;
use troupe::runner::Stage;

#[test]
fn panicked_state_is_replaced() {
    let mut catcher = PanicCatcher::<String, ()>::new("state".to_string());
    let state = catcher.begin();
    assert_eq!("state", state);
    catcher.settle(Some(state + " after start up"));
    let state = catcher.begin();
    assert_eq!("state after start up", state);
    drop(state);
    catcher.settle(None);
    let state = catcher.begin();
    assert_eq!("", state);
    catcher.settle(Some("last".to_string()));
    assert_eq!("last", catcher.release());
}

#[test]
fn wrapper_is_transparent() {
    let mut wrapper = SendableWrapper::new(vec![1, 2]);
    assert_eq!(2, wrapper.len());
    wrapper.deref_mut().push(3);
    let copy = wrapper.clone();
    assert_eq!(vec![1, 2, 3], wrapper.take());
    assert_eq!(vec![1, 2, 3], copy.take());
}

/// A stream that counts up.
struct Numbers(u32);

impl SendableStream<u32> for Numbers {
    fn poll_next(&mut self, _: &mut Context<'_>) -> Poll<Option<u32>> {
        self.0 += 1;
        Poll::Ready(Some(self.0))
    }
}

#[test]
fn wrapped_stream_is_a_stream() {
    let waker = futures::task::noop_waker();
    let mut cx = Context::from_waker(&waker);
    let mut wrapper = SendableWrapper::new(Numbers(4));
    assert_eq!(Poll::Ready(Some(5)), wrapper.poll_next(&mut cx));
    assert_eq!(Poll::Ready(Some(6)), wrapper.poll_next(&mut cx));
    assert_eq!(6, wrapper.take().0);
}

#[test]
fn stages_follow_each_other() {
    assert!(matches!(first_stage::<u8>(), Stage::StartUp));
    assert!(matches!(next_stage::<u8>(Outcome::StartedUp), Stage::Receive));
    assert!(matches!(next_stage(Outcome::Received(Some(4u8))), Stage::Process(4)));
    assert!(matches!(next_stage::<u8>(Outcome::Processed), Stage::Receive));
    assert!(matches!(next_stage::<u8>(Outcome::Received(None)), Stage::Finalize));
    assert!(matches!(next_stage::<u8>(Outcome::Finalized), Stage::Close));
}
