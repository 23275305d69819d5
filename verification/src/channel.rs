use vstd::prelude::*;
use std::sync::mpsc::{Receiver, Sender};

verus! {

/// The sending half of std's mpsc channel, declared so that it can
/// stand in signatures and fields; its contents stay opaque.
#[verifier::external_type_specification]
#[verifier::external_body]
#[verifier::reject_recursive_types(T)]
pub struct ExSender<T>(Sender<T>);

/// The receiving half of std's mpsc channel, declared so that it can
/// stand in signatures and fields; its contents stay opaque.
#[verifier::external_type_specification]
#[verifier::external_body]
#[verifier::reject_recursive_types(T)]
pub struct ExReceiver<T>(Receiver<T>);

/// What one non-blocking look at a channel produced: a message, nothing
/// for the moment, or the news that every sender is gone.
pub enum ChannelPoll<T> {
    Message(T),
    Idle,
    Closed,
}

/// Relies on std::sync::mpsc::channel: an unbounded FIFO queue, handed
/// back as a connected sender and receiver pair.
#[verifier::external_body]
pub(crate) fn new_channel<T>() -> (Sender<T>, Receiver<T>) {
    std::sync::mpsc::channel()
}

/// Relies on std::sync::mpsc::Sender::send: the message is queued unless
/// the receiver is gone, and a refused message comes back inside the
/// error, unchanged.
#[verifier::external_body]
pub(crate) fn send_msg<T>(tx: &Sender<T>, msg: T) -> (r: Option<T>)
    ensures
        r matches Some(m) ==> m == msg,
{
    match tx.send(msg) {
        Ok(()) => None,
        Err(std::sync::mpsc::SendError(m)) => Some(m),
    }
}

/// Relies on std::sync::mpsc::Receiver::recv: blocks for the next message
/// and returns nothing only when the channel is empty and every sender is
/// gone.
#[verifier::external_body]
pub(crate) fn recv_msg<T>(rx: &Receiver<T>) -> Option<T> {
    rx.recv().ok()
}

/// Relies on std::sync::mpsc::Receiver::try_recv: never blocks, and tells
/// a momentarily empty channel apart from one whose senders are all gone.
#[verifier::external_body]
pub(crate) fn try_recv_msg<T>(rx: &Receiver<T>) -> ChannelPoll<T> {
    match rx.try_recv() {
        Ok(m) => ChannelPoll::Message(m),
        Err(std::sync::mpsc::TryRecvError::Empty) => ChannelPoll::Idle,
        Err(std::sync::mpsc::TryRecvError::Disconnected) => ChannelPoll::Closed,
    }
}

/// Relies on std::sync::mpsc::Sender::clone: another sending handle to the
/// same channel.
#[verifier::external_body]
pub(crate) fn clone_sender<T>(tx: &Sender<T>) -> Sender<T> {
    tx.clone()
}

} // verus!
