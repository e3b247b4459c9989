//! The two ends of a sub-channel: many producers, one consumer.

use crate::error::CommError;
use std::sync::mpsc::{channel, Receiver, SendError, Sender, TryRecvError};
use vstd::prelude::*;

verus! {

/// What a slot holds after a receive attempt: the value, if one came.
pub open spec fn held<T>(received: Result<T, TryRecvError>) -> Option<T> {
    match received {
        Ok(value) => Some(value),
        Err(_) => None,
    }
}

/// What a send attempt amounts to for the producer.
pub open spec fn forwarded<T>(sent: Result<(), SendError<T>>) -> Result<(), CommError> {
    match sent {
        Ok(_) => Ok(()),
        Err(_) => Err(CommError::ChannelDisconnected),
    }
}

/// The capability to send: every transport offers its producers as this.
pub trait Push<T> {
    /// Takes the payload out of `element`, if there is one, and sends it.
    /// With nothing in `element` nothing is sent, and nothing can fail.
    fn push(&mut self, element: &mut Option<T>) -> (r: Result<(), CommError>)
        ensures
            *final(element) == None::<T>,
            *old(element) is None ==> r is Ok,
    ;
}

/// The capability to receive: every transport offers its consumers as
/// this.
pub trait Pull<T> {
    /// The slot that holds the next available message, or nothing. It
    /// does not block.
    fn pull(&mut self) -> (slot: &mut Option<T>);
}

/// The push half of an intra-process channel.
#[verifier::reject_recursive_types(T)]
pub struct Pusher<T> {
    target: Sender<T>,
}

impl<T> Clone for Pusher<T> {
    /// One more producer for the same sub-channel.
    fn clone(&self) -> (copy: Self)
        ensures
            copy == *self,
    {
        Pusher { target: self.target.clone() }
    }
}

impl<T> Pusher<T> {
    /// How a send attempt is reported: a send to a consumer that no longer
    /// exists is fatal.
    pub fn settle(sent: Result<(), SendError<T>>) -> (r: Result<(), CommError>)
        ensures
            r == forwarded(sent),
    {
        match sent {
            Ok(_) => Ok(()),
            Err(_) => Err(CommError::ChannelDisconnected),
        }
    }

    /// Takes the payload out of `element`, if there is one, and forwards it
    /// into the sub-channel. With nothing in `element` this does nothing.
    pub fn push(&mut self, element: &mut Option<T>) -> (r: Result<(), CommError>)
        ensures
            *final(element) == None::<T>,
            *final(self) == *old(self),
            *old(element) is None ==> r is Ok,
            r matches Err(e) ==> e == CommError::ChannelDisconnected,
    {
        match element.take() {
            Some(payload) => Self::settle(self.target.send(payload)),
            None => Ok(()),
        }
    }
}

/// The pull half of an intra-process channel.
#[verifier::reject_recursive_types(T)]
pub struct Puller<T> {
    current: Option<T>,
    source: Receiver<T>,
}

impl<T> Puller<T> {
    /// The value that the last receive attempt left in the slot.
    pub closed spec fn view(&self) -> Option<T> {
        self.current
    }

    /// The receiving end is the same in both.
    pub closed spec fn same_source(&self, other: &Puller<T>) -> bool {
        self.source == other.source
    }

    /// Puts the result of a receive attempt into the slot: the value that
    /// came, or nothing. The slot is handed out for the caller to take the
    /// value from.
    pub fn accept(&mut self, received: Result<T, TryRecvError>) -> (slot: &mut Option<T>)
        ensures
            *slot == held(received),
            final(self)@ == *final(slot),
            final(self).same_source(old(self)),
    {
        self.current = received.ok();
        &mut self.current
    }

    /// Looks for the next message without blocking and hands out the slot
    /// that holds it, or holds nothing.
    pub fn pull(&mut self) -> (slot: &mut Option<T>)
        ensures
            final(self)@ == *final(slot),
            final(self).same_source(old(self)),
    {
        let received = self.source.try_recv();
        self.accept(received)
    }
}

impl<T> Push<T> for Pusher<T> {
    fn push(&mut self, element: &mut Option<T>) -> (r: Result<(), CommError>)
        ensures
            *final(self) == *old(self),
            r matches Err(e) ==> e == CommError::ChannelDisconnected,
    {
        Pusher::push(self, element)
    }
}

impl<T> Pull<T> for Puller<T> {
    fn pull(&mut self) -> (slot: &mut Option<T>)
        ensures
            final(self)@ == *final(slot),
            final(self).same_source(old(self)),
    {
        Puller::pull(self)
    }
}

/// A new sub-channel: its first producer and its consumer, whose slot is
/// empty.
pub fn sub_channel<T>() -> (ends: (Pusher<T>, Puller<T>))
    ensures
        ends.1@ == None::<T>,
{
    let (target, source) = channel();
    (Pusher { target }, Puller { current: None, source })
}

} // verus!
