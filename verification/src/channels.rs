//! Trusted declarations of the channels the library builds on: the standard
//! library's mpsc queues and tokio's one-shot channel.
//!
//! A channel crosses threads, so nothing can be promised about what a
//! receiver sees at any given moment except that it was previously sent.
//! Payloads that carry a well-formedness condition are sent only through
//! [`send_message`], which demands it, so what comes out of
//! [`try_recv_message`] satisfies it again.

use vstd::prelude::*;

use std::sync::mpsc;

verus! {

#[verifier::external_type_specification]
#[verifier::external_body]
#[verifier::reject_recursive_types(T)]
pub struct ExSender<T>(mpsc::Sender<T>);

#[verifier::external_type_specification]
#[verifier::external_body]
#[verifier::reject_recursive_types(T)]
pub struct ExReceiver<T>(mpsc::Receiver<T>);

#[verifier::external_type_specification]
#[verifier::external_body]
#[verifier::reject_recursive_types(T)]
pub struct ExSyncSender<T>(mpsc::SyncSender<T>);

#[verifier::external_type_specification]
#[verifier::external_body]
#[verifier::reject_recursive_types(T)]
pub struct ExOneshotSender<T>(tokio::sync::oneshot::Sender<T>);

#[verifier::external_type_specification]
#[verifier::external_body]
#[verifier::reject_recursive_types(T)]
pub struct ExOneshotReceiver<T>(tokio::sync::oneshot::Receiver<T>);

#[verifier::external_type_specification]
#[verifier::external_body]
pub struct ExOneshotRecvError(tokio::sync::oneshot::error::RecvError);

/// A value that may travel through a queue between threads, carrying a
/// well-formedness condition that every sender establishes and every
/// receiver may rely on.
pub trait QueueMessage: Send + Sized {
    /// The condition senders establish before sending.
    spec fn wf(&self) -> bool;
}

/// One attempt to receive from a queue.
pub enum RecvAttempt<T> {
    /// A message was waiting.
    Got(T),
    /// No message is waiting right now, but senders still exist.
    Empty,
    /// No message is waiting and every sender is gone.
    Disconnected,
}

/// Relies on `std::sync::mpsc::channel`: creates an unbounded queue whose
/// receiver yields exactly the values sent on the paired sender, in order.
#[verifier::external_body]
pub(crate) fn message_channel<T: QueueMessage>() -> (r: (mpsc::Sender<T>, mpsc::Receiver<T>))
{
    mpsc::channel()
}

/// Relies on `std::sync::mpsc::Sender::send`: enqueues the value; it fails
/// (returning `false`) only if the receiver is gone, in which case the value
/// is dropped.
#[verifier::external_body]
pub(crate) fn send_message<T: QueueMessage>(sender: &mpsc::Sender<T>, message: T) -> (r: bool)
    requires
        message.wf(),
{
    sender.send(message).is_ok()
}

/// Relies on `std::sync::mpsc::Sender::clone`: the clone feeds the same
/// queue.
#[verifier::external_body]
pub(crate) fn clone_sender<T: QueueMessage>(sender: &mpsc::Sender<T>) -> (r: mpsc::Sender<T>) {
    sender.clone()
}

/// Relies on `std::sync::mpsc::Receiver::try_recv`, which never blocks, and
/// on the channel delivering only values passed to [`send_message`], which
/// demands their well-formedness.
#[verifier::external_body]
pub(crate) fn try_recv_message<T: QueueMessage>(receiver: &mpsc::Receiver<T>) -> (r: RecvAttempt<
    T,
>)
    ensures
        (r matches RecvAttempt::Got(m) ==> m.wf()),
{
    match receiver.try_recv() {
        Ok(m) => RecvAttempt::Got(m),
        Err(mpsc::TryRecvError::Empty) => RecvAttempt::Empty,
        Err(mpsc::TryRecvError::Disconnected) => RecvAttempt::Disconnected,
    }
}

/// Relies on `std::sync::mpsc::sync_channel`: creates a queue with a fixed
/// capacity.
#[verifier::external_body]
pub(crate) fn bounded_channel<T>(bound: usize) -> (r: (mpsc::SyncSender<T>, mpsc::Receiver<T>)) {
    mpsc::sync_channel(bound)
}

/// Relies on `std::sync::mpsc::SyncSender::try_send`, which never blocks:
/// it enqueues the value, failing if the queue is full or the receiver is
/// gone.
#[verifier::external_body]
pub(crate) fn send_once(sender: mpsc::SyncSender<()>) -> (r: bool) {
    sender.try_send(()).is_ok()
}

/// Relies on `tokio::sync::oneshot::channel`: creates a channel carrying a
/// single value.
#[verifier::external_body]
pub(crate) fn oneshot_channel() -> (r: (
    tokio::sync::oneshot::Sender<()>,
    tokio::sync::oneshot::Receiver<()>,
)) {
    tokio::sync::oneshot::channel()
}

/// Relies on `tokio::sync::oneshot::Sender::send`, which never blocks; it
/// fails only if the receiver is gone.
#[verifier::external_body]
pub(crate) fn oneshot_send(sender: tokio::sync::oneshot::Sender<()>) -> (r: bool) {
    sender.send(()).is_ok()
}

} // verus!
