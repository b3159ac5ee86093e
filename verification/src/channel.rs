//! The broadcast channels that carry results and events to their subscribers.
//!
//! A channel keeps a bounded history. Every subscriber receives each value
//! sent after it subscribed; one that falls behind by more than the history
//! loses the oldest values it has not read, and is told how many.

use tokio::sync::broadcast::Receiver;
use tokio::sync::broadcast::Sender;
use vstd::prelude::*;

use crate::error::AudioError;

verus! {

/// `tokio::sync::broadcast::Sender`, the sending half of a channel. Nothing
/// is known here of what a channel holds or of who is subscribed to it.
#[verifier::external_type_specification]
#[verifier::external_body]
#[verifier::reject_recursive_types(T)]
pub struct ExSender<T>(Sender<T>);

/// `tokio::sync::broadcast::Receiver`, one subscription to a channel.
/// Nothing is known here of what it has yet to receive.
#[verifier::external_type_specification]
#[verifier::external_body]
#[verifier::reject_recursive_types(T)]
pub struct ExReceiver<T>(Receiver<T>);

/// The largest history that a channel can be made with.
pub const MAX_CAPACITY: usize = usize::MAX / 2;

/// The sending half of a broadcast channel, kept together with the capacity
/// that the channel was made with.
#[verifier::reject_recursive_types(T)]
pub struct Channel<T> {
    sender: Sender<T>,
    capacity: usize,
}

impl<T> Channel<T> {
    /// The capacity that the channel was made with: the number of values
    /// that it was asked to retain for subscribers that fall behind.
    pub closed spec fn made_with(&self) -> nat {
        self.capacity as nat
    }

    /// The capacity that the channel was made with.
    pub fn capacity(&self) -> (capacity: usize)
        ensures
            capacity == self.made_with(),
    {
        self.capacity
    }
}

/// Calls `tokio::sync::broadcast::channel` with the capacity that is handed
/// in and keeps the sending half, so the channel starts without a
/// subscriber. The call panics on a capacity of zero or above half of
/// `usize::MAX`; those are left out. Claimed is that the channel was made
/// with that capacity, and nothing of what it holds.
#[verifier::external_body]
pub(crate) fn open_channel<T: Clone>(capacity: usize) -> (channel: Channel<T>)
    requires
        0 < capacity <= MAX_CAPACITY,
    ensures
        channel.made_with() == capacity,
{
    Channel { sender: tokio::sync::broadcast::channel(capacity).0, capacity }
}

/// Calls `Sender::send`. With at least one subscriber the value is stored and
/// the number of subscribers comes back; with none the value comes back. Which
/// of the two happens depends on who is subscribed, so only this is claimed:
/// a count is never zero, and a value that comes back is the one handed in.
#[verifier::external_body]
pub(crate) fn send<T>(channel: &Channel<T>, value: T) -> (sent: Result<usize, T>)
    ensures
        sent matches Ok(subscribers) ==> subscribers > 0,
        sent matches Err(back) ==> back == value,
{
    match channel.sender.send(value) {
        Ok(subscribers) => Ok(subscribers),
        Err(error) => Err(error.0),
    }
}

/// Calls `Sender::subscribe`, which makes a receiver for the values sent from
/// now on. It panics only on a channel that has a quarter of `usize::MAX`
/// receivers already, which no memory holds. Nothing is claimed of the
/// receiver.
#[verifier::external_body]
pub(crate) fn subscribe<T>(channel: &Channel<T>) -> (receiver: Receiver<T>) {
    channel.sender.subscribe()
}

/// What a send that must reach somebody reports for each outcome of the
/// channel: success where the value was stored, `ChannelClosed` where the
/// value came back because nobody is subscribed.
pub fn delivery<T>(sent: Result<usize, T>) -> (done: Result<(), AudioError>)
    ensures
        sent is Ok ==> done == Ok::<(), AudioError>(()),
        sent is Err ==> done == Err::<(), AudioError>(AudioError::ChannelClosed),
{
    match sent {
        Ok(_) => Ok(()),
        Err(_) => Err(AudioError::ChannelClosed),
    }
}

/// The number of subscribers that a send reached: none where the value came
/// back.
pub fn reached<T>(sent: Result<usize, T>) -> (subscribers: usize)
    ensures
        sent matches Ok(count) ==> subscribers == count,
        sent is Err ==> subscribers == 0,
{
    match sent {
        Ok(count) => count,
        Err(_) => 0,
    }
}

} // verus!
