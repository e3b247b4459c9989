//! The standard library's queue between threads, as the endpoints use it.
//!
//! What a receiver yields depends on what other threads have sent, and
//! whether a send succeeds depends on whether the receiver still exists.
//! So nothing is promised of what is sent or received: the code that calls
//! these functions is verified for every outcome. The one thing stated is
//! that the copy of a sending end is that sending end.

use std::sync::mpsc::{Receiver, RecvError, SendError, Sender, TryRecvError};
use vstd::prelude::*;

verus! {

/// `std::sync::mpsc::Sender`: a sending end of a queue, opaque here.
#[verifier::external_type_specification]
#[verifier::external_body]
#[verifier::reject_recursive_types(T)]
pub struct ExSender<T>(Sender<T>);

/// `std::sync::mpsc::Receiver`: the receiving end of a queue, opaque
/// here.
#[verifier::external_type_specification]
#[verifier::external_body]
#[verifier::reject_recursive_types(T)]
pub struct ExReceiver<T>(Receiver<T>);

/// `std::sync::mpsc::SendError`: a failed send, with the value that was
/// not sent.
#[verifier::external_type_specification]
#[verifier::external_body]
#[verifier::reject_recursive_types(T)]
pub struct ExSendError<T>(SendError<T>);

/// `std::sync::mpsc::TryRecvError`: why a receive attempt brought
/// nothing.
#[verifier::external_type_specification]
#[verifier::external_body]
pub struct ExTryRecvError(TryRecvError);

/// `std::sync::mpsc::RecvError`: a receive on a queue that no one can
/// send into any more.
#[verifier::external_type_specification]
#[verifier::external_body]
pub struct ExRecvError(RecvError);

/// `std::sync::mpsc::channel`: a new unbounded queue, as its sending and
/// its receiving end.
pub assume_specification<T>[ std::sync::mpsc::channel::<T> ]() -> (ends: (Sender<T>, Receiver<T>));

/// `Sender::send`: queues the value without blocking. It fails when the
/// receiving end has been dropped.
pub assume_specification<T>[ Sender::<T>::send ](sender: &Sender<T>, t: T) -> (sent: Result<
    (),
    SendError<T>,
>);

/// `Sender::clone`: one more sending end of the same queue. The copy is
/// taken to be the sender it was made from: what is sent through either
/// arrives at the one receiver.
pub assume_specification<T>[ <Sender<T> as Clone>::clone ](sender: &Sender<T>) -> (copy: Sender<T>)
    ensures
        copy == *sender,
;

/// `Receiver::try_recv`: the next queued value, if one is there now. It
/// does not block.
pub assume_specification<T>[ Receiver::<T>::try_recv ](receiver: &Receiver<T>) -> (received: Result<
    T,
    TryRecvError,
>);

/// `Receiver::recv`: the next queued value, waiting for one if need be. It
/// fails when every sending end has been dropped and the queue is empty.
pub assume_specification<T>[ Receiver::<T>::recv ](receiver: &Receiver<T>) -> (received: Result<
    T,
    RecvError,
>);

} // verus!
