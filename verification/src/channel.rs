use vstd::prelude::*;
use std::time::Duration;
use crossbeam::channel::Receiver;
use crossbeam::channel::Sender;

verus! {

/// `crossbeam::channel::Sender`, the sending end of a channel shared between threads.
#[verifier::external_type_specification]
#[verifier::external_body]
#[verifier::reject_recursive_types(T)]
pub struct ExSender<T>(crossbeam::channel::Sender<T>);

/// `crossbeam::channel::Receiver`, the receiving end of a channel shared between threads.
#[verifier::external_type_specification]
#[verifier::external_body]
#[verifier::reject_recursive_types(T)]
pub struct ExReceiver<T>(crossbeam::channel::Receiver<T>);

/// The largest capacity that this library asks of a bounded channel.
pub const CHANNEL_CAPACITY_LIMIT: usize = 65_536;

/// `crossbeam::channel::bounded`: the two ends of a new channel. It panics
/// on a capacity too large to set up, so large ones are left out. Nothing is
/// claimed of the ends.
#[verifier::external_body]
pub(crate) fn bounded_channel<T>(capacity: usize) -> (out: (Sender<T>, Receiver<T>))
    requires
        capacity <= CHANNEL_CAPACITY_LIMIT,
{
    crossbeam::channel::bounded(capacity)
}

/// `Sender::send`: blocks while the channel is full; hands the item back
/// where every receiver is gone. Which of the two happens depends on the
/// other threads, so nothing is claimed but that a returned item is the one
/// that was sent.
#[verifier::external_body]
pub(crate) fn channel_send<T>(sender: &Sender<T>, item: T) -> (out: Result<(), T>)
    ensures
        out matches Err(back) ==> back == item,
{
    sender.send(item).map_err(|e| e.0)
}

/// `Receiver::recv`: blocks until an item arrives; `None` once the channel
/// is empty and every sender is gone. Nothing is claimed of the item.
#[verifier::external_body]
pub(crate) fn channel_recv<T>(receiver: &Receiver<T>) -> (out: Option<T>)
{
    receiver.recv().ok()
}

/// `Receiver::recv_timeout`: as `recv`, but gives up after the given
/// milliseconds. Nothing is claimed of the outcome.
#[verifier::external_body]
pub(crate) fn channel_recv_timeout<T>(receiver: &Receiver<T>, millis: u64) -> (out: Option<T>)
{
    receiver.recv_timeout(Duration::from_millis(millis)).ok()
}

/// `Receiver::try_recv`: an item if one is waiting, without blocking.
/// Nothing is claimed of the outcome.
#[verifier::external_body]
pub(crate) fn channel_try_recv<T>(receiver: &Receiver<T>) -> (out: Option<T>)
{
    receiver.try_recv().ok()
}

/// `Receiver::len`: how many items wait in the channel at this moment.
#[verifier::external_body]
pub(crate) fn channel_len<T>(receiver: &Receiver<T>) -> (out: usize)
{
    receiver.len()
}

/// `Receiver::clone`: another handle to the same channel.
#[verifier::external_body]
pub(crate) fn clone_receiver<T>(receiver: &Receiver<T>) -> (out: Receiver<T>)
{
    receiver.clone()
}

/// `Sender::clone`: another handle to the same channel.
#[verifier::external_body]
pub(crate) fn clone_sender<T>(sender: &Sender<T>) -> (out: Sender<T>)
{
    sender.clone()
}

} // verus!
