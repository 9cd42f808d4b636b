//! What the library knows of the channels that carry messages between clients and actors.
//!
//! A channel is shared with other tasks, so its handles are opaque here and no contract speaks of
//! what is buffered in one. Contracts of callers name the calls that were made instead:
//! `call_ensures(f, args, r)` says that `r` is what came back from calling `f` on `args`.

use std::future::Future;
use std::pin::Pin;
use std::task::Context;
use std::task::Poll;

use futures::StreamExt;
use vstd::prelude::*;

verus! {

/// [`std::task::Context`], which carries the waker of the task that polls.
#[verifier::external_type_specification]
#[verifier::external_body]
pub struct ExContext<'a>(Context<'a>);

/// [`std::task::Poll`], with its two variants.
#[verifier::external_type_specification]
pub struct ExPoll<T>(Poll<T>);

/// What one poll of a value that is used up by its completion leaves behind.
pub enum Polled<T, P> {
    /// The value completed and yielded this.
    Done(T),
    /// The value is still on its way and is handed back.
    Waiting(P),
}

/* ------ Client to actor ------ */

/// [`tokio::sync::mpsc::UnboundedSender`].
#[verifier::external_type_specification]
#[verifier::external_body]
#[verifier::reject_recursive_types(T)]
pub struct ExUnboundedSender<T>(tokio::sync::mpsc::UnboundedSender<T>);

/// [`tokio::sync::mpsc::UnboundedReceiver`].
#[verifier::external_type_specification]
#[verifier::external_body]
#[verifier::reject_recursive_types(T)]
pub struct ExUnboundedReceiver<T>(tokio::sync::mpsc::UnboundedReceiver<T>);

/// [`tokio::sync::mpsc::error::SendError`], which holds the message that was not taken.
#[verifier::external_type_specification]
pub struct ExMpscSendError<T>(tokio::sync::mpsc::error::SendError<T>);

/// [`tokio::sync::mpsc::unbounded_channel`] opens a channel and returns its two halves. Nothing is
/// claimed of them.
pub assume_specification<T>[ tokio::sync::mpsc::unbounded_channel::<T> ]() -> (r: (
    tokio::sync::mpsc::UnboundedSender<T>,
    tokio::sync::mpsc::UnboundedReceiver<T>,
));

/// [`tokio::sync::mpsc::UnboundedSender::send`] puts the message into the channel unless the
/// receiving half is gone, in which case it hands the message back. Which of the two happens is up
/// to the receiver.
pub assume_specification<T>[ tokio::sync::mpsc::UnboundedSender::<T>::send ](
    sender: &tokio::sync::mpsc::UnboundedSender<T>,
    message: T,
) -> (r: Result<(), tokio::sync::mpsc::error::SendError<T>>)
    ensures
        r matches Err(back) ==> back.0 == message,
;

/// [`tokio::sync::mpsc::UnboundedSender::is_closed`] tells if the receiving half is gone. That is
/// up to the receiver, so nothing is claimed.
pub assume_specification<T>[ tokio::sync::mpsc::UnboundedSender::<T>::is_closed ](
    sender: &tokio::sync::mpsc::UnboundedSender<T>,
) -> (r: bool);

/// [`Clone`] of [`tokio::sync::mpsc::UnboundedSender`] makes another handle to the same channel. A
/// handle is nothing but a reference to its channel, so the two are equal.
pub assume_specification<T>[ <tokio::sync::mpsc::UnboundedSender<T> as Clone>::clone ](
    sender: &tokio::sync::mpsc::UnboundedSender<T>,
) -> (r: tokio::sync::mpsc::UnboundedSender<T>)
    ensures
        r == *sender,
;

/// [`tokio::sync::mpsc::UnboundedReceiver::poll_recv`] takes the oldest message out of the
/// channel. What is in there is up to the senders, so nothing is claimed of it. The context is left
/// as it is.
pub assume_specification<T>[ tokio::sync::mpsc::UnboundedReceiver::<T>::poll_recv ](
    receiver: &mut tokio::sync::mpsc::UnboundedReceiver<T>,
    cx: &mut Context<'_>,
) -> (r: Poll<Option<T>>)
    ensures
        *final(cx) == *old(cx),
;

/* ------ Actor to one caller ------ */

/// [`tokio::sync::oneshot::Sender`].
#[verifier::external_type_specification]
#[verifier::external_body]
#[verifier::reject_recursive_types(T)]
pub struct ExOneshotSender<T>(tokio::sync::oneshot::Sender<T>);

/// [`tokio::sync::oneshot::Receiver`].
#[verifier::external_type_specification]
#[verifier::external_body]
#[verifier::reject_recursive_types(T)]
pub struct ExOneshotReceiver<T>(tokio::sync::oneshot::Receiver<T>);

/// [`tokio::sync::oneshot::error::RecvError`], the sender was dropped without a word.
#[verifier::external_type_specification]
#[verifier::external_body]
pub struct ExOneshotRecvError(tokio::sync::oneshot::error::RecvError);

/// [`tokio::sync::oneshot::channel`] opens a channel for a single value and returns its two halves.
/// Nothing is claimed of them.
pub assume_specification<T>[ tokio::sync::oneshot::channel::<T> ]() -> (r: (
    tokio::sync::oneshot::Sender<T>,
    tokio::sync::oneshot::Receiver<T>,
));

/// [`tokio::sync::oneshot::Sender::send`] hands the value to the receiver, or back to the caller
/// if the receiver is gone.
pub assume_specification<T>[ tokio::sync::oneshot::Sender::<T>::send ](
    sender: tokio::sync::oneshot::Sender<T>,
    t: T,
) -> (r: Result<(), T>)
    ensures
        r matches Err(back) ==> back == t,
;

/// Polls a [`tokio::sync::oneshot::Receiver`] once. The receiver must not be polled again after it
/// completed, so it is handed over here and comes back only while it waits. What it yields is up
/// to the sender, so nothing is claimed.
#[verifier::external_body]
pub(crate) fn poll_oneshot<T>(
    receiver: tokio::sync::oneshot::Receiver<T>,
    cx: &mut Context<'_>,
) -> (r: Polled<Result<T, tokio::sync::oneshot::error::RecvError>, tokio::sync::oneshot::Receiver<T>>) {
    let mut receiver = receiver;
    match Pin::new(&mut receiver).poll(cx) {
        Poll::Ready(value) => Polled::Done(value),
        Poll::Pending => Polled::Waiting(receiver),
    }
}

/* ------ Actor to every client ------ */

/// [`tokio::sync::broadcast::Sender`].
#[verifier::external_type_specification]
#[verifier::external_body]
#[verifier::reject_recursive_types(T)]
pub struct ExBroadcastSender<T>(tokio::sync::broadcast::Sender<T>);

/// [`tokio::sync::broadcast::Receiver`].
#[verifier::external_type_specification]
#[verifier::external_body]
#[verifier::reject_recursive_types(T)]
pub struct ExBroadcastReceiver<T>(tokio::sync::broadcast::Receiver<T>);

/// [`tokio::sync::broadcast::error::SendError`], which holds the message that nobody listened to.
#[verifier::external_type_specification]
pub struct ExBroadcastSendError<T>(tokio::sync::broadcast::error::SendError<T>);

/// [`tokio::sync::broadcast::error::TryRecvError`].
#[verifier::external_type_specification]
#[verifier::external_body]
pub struct ExBroadcastTryRecvError(tokio::sync::broadcast::error::TryRecvError);

/// [`tokio_stream::wrappers::BroadcastStream`].
#[verifier::external_type_specification]
#[verifier::external_body]
#[verifier::reject_recursive_types(T)]
pub struct ExBroadcastStream<T>(tokio_stream::wrappers::BroadcastStream<T>);

/// [`tokio_stream::wrappers::errors::BroadcastStreamRecvError`], which tells how many messages were
/// overwritten before they were seen.
#[verifier::external_type_specification]
pub struct ExBroadcastStreamRecvError(tokio_stream::wrappers::errors::BroadcastStreamRecvError);

/// [`tokio::sync::broadcast::channel`] opens a channel that keeps at least the last `capacity`
/// messages for every receiver. It panics if asked for none or for more than half of what a
/// `usize` counts. Nothing is claimed of the two halves.
pub assume_specification<T: Clone>[ tokio::sync::broadcast::channel::<T> ](capacity: usize) -> (r: (
    tokio::sync::broadcast::Sender<T>,
    tokio::sync::broadcast::Receiver<T>,
))
    requires
        0 < capacity <= usize::MAX / 2,
;

/// [`tokio::sync::broadcast::Sender::send`] offers the message to every receiver and tells how
/// many there are, or hands the message back if there is none. Which of the two happens is up to
/// the receivers.
pub assume_specification<T>[ tokio::sync::broadcast::Sender::<T>::send ](
    sender: &tokio::sync::broadcast::Sender<T>,
    value: T,
) -> (r: Result<usize, tokio::sync::broadcast::error::SendError<T>>)
    ensures
        r matches Err(back) ==> back.0 == value,
;

/// [`tokio::sync::broadcast::Receiver::resubscribe`] makes another receiver, which will see what is
/// sent from now on. It panics only where the channel already has a quarter as many receivers as a
/// `usize` counts. Nothing is claimed of the new receiver.
pub assume_specification<T: Clone>[ tokio::sync::broadcast::Receiver::<T>::resubscribe ](
    receiver: &tokio::sync::broadcast::Receiver<T>,
) -> (r: tokio::sync::broadcast::Receiver<T>);

/// [`tokio::sync::broadcast::Receiver::try_recv`] takes the oldest message that this receiver has
/// not seen. What is in the channel is up to the sender, so nothing is claimed.
pub assume_specification<T: Clone>[ tokio::sync::broadcast::Receiver::<T>::try_recv ](
    receiver: &mut tokio::sync::broadcast::Receiver<T>,
) -> (r: Result<T, tokio::sync::broadcast::error::TryRecvError>);

/// [`tokio_stream::wrappers::BroadcastStream::new`] makes a stream out of a receiver. Nothing is
/// claimed of it.
pub assume_specification<T: 'static + Clone + Send>[ tokio_stream::wrappers::BroadcastStream::<T>::new ](
    rx: tokio::sync::broadcast::Receiver<T>,
) -> (r: tokio_stream::wrappers::BroadcastStream<T>);

/// Polls a [`tokio_stream::wrappers::BroadcastStream`] once, and returns it along with what came
/// back. What is in the channel is up to the sender, so nothing is claimed.
#[verifier::external_body]
pub(crate) fn poll_broadcast<T: 'static + Clone + Send>(
    stream: tokio_stream::wrappers::BroadcastStream<T>,
    cx: &mut Context<'_>,
) -> (r: (
    tokio_stream::wrappers::BroadcastStream<T>,
    Poll<Option<Result<T, tokio_stream::wrappers::errors::BroadcastStreamRecvError>>>,
)) {
    let mut stream = stream;
    let polled = stream.poll_next_unpin(cx);
    (stream, polled)
}

} // verus!
