use std::collections::HashMap;
use std::future::Ready;
use std::task::Context;

use tokio::sync::oneshot;
use tokio::sync::oneshot::error::TryRecvError;
use troupe::actor::ActorBuilder;
use troupe::actor::Step;
use troupe::map::cache_action;
use troupe::map::Cache;
use troupe::map::CacheMessage;

type Behavior = fn(&Cache) -> Ready<()>;

#[test]
fn cache_usability() {
    let waker = futures::task::noop_waker();
    let mut cx = Context::from_waker(&waker);
    let (client, actor) =
        ActorBuilder::<_, _, Behavior, Behavior>::new(Cache(HashMap::new()), cache_action).build();
    let (send, mut replaced) = oneshot::channel();
    assert!(client.send(CacheMessage::from((send, (0, "test".to_string())))).is_ok());
    let (send, mut length) = oneshot::channel();
    assert!(client
        .send(CacheMessage::from((send, (0, |cache: &Cache| cache.0.len()))))
        .is_ok());
    assert_eq!(Err(TryRecvError::Empty), replaced.try_recv());
    assert_eq!(Err(TryRecvError::Empty), length.try_recv());
    let mut performance = actor.perform();
    assert!(matches!(performance.step(&mut cx), Step::Received));
    assert!(matches!(performance.step(&mut cx), Step::Acted));
    assert!(matches!(performance.step(&mut cx), Step::Received));
    assert!(matches!(performance.step(&mut cx), Step::Acted));
    assert!(matches!(performance.step(&mut cx), Step::Waited));
    assert_eq!(Err(TryRecvError::Closed), replaced.try_recv());
    assert_eq!(Err(TryRecvError::Closed), length.try_recv());
}

#[test]
fn insertions_carry_their_parts() {
    let (send, mut recv) = oneshot::channel();
    match CacheMessage::from((send, (3, "three".to_string()))) {
        CacheMessage::Insert(send, id, data) => {
            assert_eq!(3, id);
            assert_eq!("three", data);
            send.send(Some("two".to_string())).unwrap();
        }
        CacheMessage::Query(_, _) => panic!("Not an insertion"),
    }
    assert_eq!(Ok(Some("two".to_string())), recv.try_recv());
}

#[test]
fn queries_send_their_result() {
    let cache = Cache(HashMap::from([(1, "one".to_string()), (2, "two".to_string())]));
    let (send, mut recv) = oneshot::channel();
    match CacheMessage::from((send, (5, |cache: &Cache| cache.0.len()))) {
        CacheMessage::Query(id, query) => {
            assert_eq!(5, id);
            query.ask(&cache);
        }
        CacheMessage::Insert(_, _, _) => panic!("Not a query"),
    }
    assert_eq!(Ok(2), recv.try_recv());
}

#[test]
fn cache_action_leaves_the_cache_as_it_is() {
    let mut cache = Cache(HashMap::from([(1, "one".to_string())]));
    let (send, mut recv) = oneshot::channel();
    cache_action(&mut cache, CacheMessage::from((send, (1, "other".to_string()))));
    assert_eq!(HashMap::from([(1, "one".to_string())]), cache.0);
    assert_eq!(Err(TryRecvError::Closed), recv.try_recv());
}
