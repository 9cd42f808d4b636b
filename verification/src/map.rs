//! This module contains an example implementation of an `Actor` that holds a `HashMap`.

use std::collections::HashMap;

use tokio::sync::oneshot;
use vstd::prelude::*;

use crate::actor::ActorState;

verus! {

/// A cache of strings.
pub struct Cache(pub HashMap<usize, String>);

/// A question about a cache, together with the one who asks.
pub trait CacheQuery: Send {
    /// If the question can be asked of this cache.
    spec fn applies(&self, cache: &Cache) -> bool;

    /// If the answer of this cache was sent to the one who asks.
    spec fn answered(&self, cache: &Cache) -> bool;

    /// Asks the question and sends the answer.
    fn ask(self: Box<Self>, cache: &Cache)
        requires
            self.applies(cache),
        ensures
            self.answered(cache),
    ;
}

/// A function of a cache, and where to send its result.
#[verifier::reject_recursive_types(T)]
pub struct Query<F, T> {
    send: oneshot::Sender<T>,
    query: F,
}

impl<F, T> Query<F, T> {
    /// The function.
    pub closed spec fn function(self) -> F {
        self.query
    }

    /// Where its result is sent.
    pub closed spec fn sender(self) -> oneshot::Sender<T> {
        self.send
    }
}

/// If a result of the function on this cache was sent.
pub open spec fn sent_result<F, T>(query: F, send: oneshot::Sender<T>, cache: &Cache) -> bool where
    F: FnOnce(&Cache) -> T,
 {
    exists|result: T, r: Result<(), T>|
        {
            &&& query.ensures((cache,), result)
            &&& #[trigger] call_ensures(oneshot::Sender::<T>::send, (send, result), r)
        }
}

impl<F, T> CacheQuery for Query<F, T> where F: Send + FnOnce(&Cache) -> T, T: Send {
    open spec fn applies(&self, cache: &Cache) -> bool {
        self.function().requires((cache,))
    }

    open spec fn answered(&self, cache: &Cache) -> bool {
        sent_result(self.function(), self.sender(), cache)
    }

    fn ask(self: Box<Self>, cache: &Cache) {
        let ghost this = *self;
        let Query { send, query } = *self;
        let result = query(cache);
        let ghost sent = result;
        let r = send.send(result);
        assert(call_ensures(oneshot::Sender::<T>::send, (this.sender(), sent), r));
        assert(this.answered(cache));
    }
}

/// What can be asked of a cache.
pub enum CacheMessage<Q = Box<dyn CacheQuery>> {
    /// To keep a string under a number, and to send back what it replaces.
    Insert(oneshot::Sender<Option<String>>, usize, String),
    /// To answer a question.
    Query(usize, Q),
}

impl ActorState for Cache {
    type Message = CacheMessage;
}

impl From<(oneshot::Sender<Option<String>>, (usize, String))> for CacheMessage {
    fn from(parts: (oneshot::Sender<Option<String>>, (usize, String))) -> (msg: Self) {
        let (send, (id, data)) = parts;
        CacheMessage::Insert(send, id, data)
    }
}

impl vstd::std_specs::convert::FromSpecImpl<(oneshot::Sender<Option<String>>, (usize, String))> for CacheMessage {
    open spec fn obeys_from_spec() -> bool {
        true
    }

    open spec fn from_spec(parts: (oneshot::Sender<Option<String>>, (usize, String))) -> Self {
        CacheMessage::Insert(parts.0, parts.1.0, parts.1.1)
    }
}

fn query_message<Q>(id: usize, query: Q) -> (msg: CacheMessage<Q>)
    ensures
        msg == CacheMessage::Query(id, query),
{
    CacheMessage::Query(id, query)
}

/// Makes a message of a question: which entry it is about, the function that answers it, and where
/// to send its result.
pub fn question<F, T>(parts: (oneshot::Sender<T>, (usize, F))) -> (msg: CacheMessage) where
    F: 'static + Send + FnOnce(&Cache) -> T,
    T: 'static + Send,

    ensures
        msg matches CacheMessage::Query(id, query) && {
            &&& id == parts.1.0
            &&& forall|cache: &Cache| #[trigger]
                query.applies(cache) <==> parts.1.1.requires((cache,))
            &&& forall|cache: &Cache| #[trigger]
                query.answered(cache) <==> sent_result(parts.1.1, parts.0, cache)
        },
{
    let (send, (id, query)) = parts;
    let query: Box<Query<F, T>> = Box::new(Query { send, query });
    let ghost this = *query;
    let query: Box<dyn CacheQuery> = query;
    let ghost boxed = query;
    assert forall|cache: &Cache|
        {
            &&& #[trigger] boxed.applies(cache) <==> parts.1.1.requires((cache,))
            &&& boxed.answered(cache) <==> sent_result(parts.1.1, parts.0, cache)
        } by {
        assert(boxed.applies(cache) == this.applies(cache));
        assert(boxed.answered(cache) == this.answered(cache));
    }
    let msg = query_message(id, query);
    assert(msg == CacheMessage::Query(id, boxed));
    msg
}

/// Does what [`question`] does. Anything that can be asked of a cache becomes a query.
impl<F, T> From<(oneshot::Sender<T>, (usize, F))> for CacheMessage where
    F: 'static + Send + FnOnce(&Cache) -> T,
    T: 'static + Send,
 {
    fn from(parts: (oneshot::Sender<T>, (usize, F))) -> (msg: Self)
        ensures
            forall|query: F, cache: &Cache|
                query == parts.1.1 && #[trigger] query.requires((cache,)) ==> msg is Query,
            msg matches CacheMessage::Query(id, query) ==> {
                &&& id == parts.1.0
                &&& forall|cache: &Cache| #[trigger]
                    query.applies(cache) <==> parts.1.1.requires((cache,))
                &&& forall|cache: &Cache| #[trigger]
                    query.answered(cache) <==> sent_result(parts.1.1, parts.0, cache)
            },
    {
        question(parts)
    }
}

impl<F, T> vstd::std_specs::convert::FromSpecImpl<(oneshot::Sender<T>, (usize, F))> for CacheMessage where
    F: 'static + Send + FnOnce(&Cache) -> T,
    T: 'static + Send,
 {
    open spec fn obeys_from_spec() -> bool {
        false
    }

    open spec fn from_spec(parts: (oneshot::Sender<T>, (usize, F))) -> Self {
        arbitrary()
    }
}

/// Leaves the cache as it is, whatever is asked of it.
pub fn cache_action(_cache: &mut Cache, _msg: CacheMessage)
    ensures
        *final(_cache) == *old(_cache),
{
}

/// A question is its function and where to send the result of that.
proof fn law_query_is_what_it_holds<F, T>(query: Query<F, T>)
    ensures
        query.function() == query.query,
        query.sender() == query.send,
{
}

/// A message to keep a string names where to answer, the number and the string, as they were given.
pub proof fn law_insertion(
    parts: (oneshot::Sender<Option<String>>, (usize, String)),
    msg: CacheMessage,
)
    requires
        call_ensures(
            <CacheMessage as From<(oneshot::Sender<Option<String>>, (usize, String))>>::from,
            (parts,),
            msg,
        ),
    ensures
        msg matches CacheMessage::Insert(send, id, data) && {
            &&& send == parts.0
            &&& id == parts.1.0
            &&& data == parts.1.1
        },
{
}

/// Whatever is asked, and whatever the question is about, the message names the same entry, can be
/// answered wherever the function can be called, and is answered by calling the function on the cache
/// and sending what comes back to the one who asks.
pub proof fn law_question<F, T>(
    parts: (oneshot::Sender<T>, (usize, F)),
    msg: CacheMessage,
    cache: &Cache,
) where F: 'static + Send + FnOnce(&Cache) -> T, T: 'static + Send
    requires
        call_ensures(question::<F, T>, (parts,), msg),
    ensures
        msg matches CacheMessage::Query(id, query) && {
            &&& id == parts.1.0
            &&& parts.1.1.requires((cache,)) ==> query.applies(cache)
            &&& query.answered(cache) ==> exists|result: T, r: Result<(), T>|
                {
                    &&& parts.1.1.ensures((cache,), result)
                    &&& #[trigger] call_ensures(oneshot::Sender::<T>::send, (parts.0, result), r)
                }
        },
{
}

/// A question that is asked is answered: its function is called on the cache, and what comes back is
/// sent to the one who asks.
pub proof fn law_answer<F, T>(query: Query<F, T>, cache: &Cache) where
    F: Send + FnOnce(&Cache) -> T,
    T: Send,

    ensures
        query.function().requires((cache,)) ==> query.applies(cache),
        query.answered(cache) ==> exists|result: T, r: Result<(), T>|
            {
                &&& query.function().ensures((cache,), result)
                &&& #[trigger] call_ensures(oneshot::Sender::<T>::send, (query.sender(), result), r)
            },
{
}

/// Acting on a message leaves the cache as it is.
pub proof fn law_cache_is_left_alone()
    ensures
        forall|cache: &mut Cache, msg: CacheMessage| #[trigger]
            call_ensures(cache_action, (cache, msg), ()) ==> *final(cache) == *cache,
{
}

/// Any question becomes a message that names the same entry, and that is answered by calling the
/// function on the cache and sending what comes back to the one who asks.
pub proof fn law_conversion_of_a_question<F, T>(
    parts: (oneshot::Sender<T>, (usize, F)),
    msg: CacheMessage,
    cache: &Cache,
) where F: 'static + Send + FnOnce(&Cache) -> T, T: 'static + Send
    requires
        call_ensures(
            <CacheMessage as From<(oneshot::Sender<T>, (usize, F))>>::from,
            (parts,),
            msg,
        ),
        parts.1.1.requires((cache,)),
    ensures
        msg matches CacheMessage::Query(id, query) && {
            &&& id == parts.1.0
            &&& query.applies(cache)
            &&& query.answered(cache) ==> exists|result: T, r: Result<(), T>|
                {
                    &&& parts.1.1.ensures((cache,), result)
                    &&& #[trigger] call_ensures(oneshot::Sender::<T>::send, (parts.0, result), r)
                }
        },
{
}

} // verus!
