use communication::{sub_channel, CommError, Pull, Puller, Push, Pusher};
use std::sync::mpsc::{SendError, TryRecvError};

#[test]
fn pull_without_message_is_absent() {
    let (_pusher, mut puller): (Pusher<i32>, Puller<i32>) = sub_channel();
    assert_eq!(*puller.pull(), None);
    assert_eq!(*puller.pull(), None);
}

#[test]
fn push_then_pull_returns_the_value() {
    let (mut pusher, mut puller) = sub_channel();
    let mut message = Some(String::from("payload"));
    assert_eq!(pusher.push(&mut message), Ok(()));
    assert_eq!(message, None);
    assert_eq!(*puller.pull(), Some(String::from("payload")));
    assert_eq!(*puller.pull(), None);
}

#[test]
fn push_of_nothing_sends_nothing() {
    let (mut pusher, mut puller): (Pusher<u8>, Puller<u8>) = sub_channel();
    let mut nothing = None;
    assert_eq!(pusher.push(&mut nothing), Ok(()));
    assert_eq!(nothing, None);
    assert_eq!(*puller.pull(), None);
}

#[test]
fn messages_arrive_in_push_order() {
    let (mut pusher, mut puller) = sub_channel();
    for value in 0..100u32 {
        assert_eq!(pusher.push(&mut Some(value)), Ok(()));
    }
    for value in 0..100u32 {
        assert_eq!(*puller.pull(), Some(value));
    }
    assert_eq!(*puller.pull(), None);
}

#[test]
fn pulled_value_can_be_taken_from_the_slot() {
    let (mut pusher, mut puller) = sub_channel();
    assert_eq!(pusher.push(&mut Some(11u64)), Ok(()));
    let slot = puller.pull();
    assert_eq!(slot.take(), Some(11));
    assert_eq!(*slot, None);
}

#[test]
fn cloned_producers_feed_the_same_consumer() {
    let (mut first, mut puller) = sub_channel();
    let mut second = first.clone();
    let mut third = second.clone();
    assert_eq!(first.push(&mut Some(1)), Ok(()));
    assert_eq!(second.push(&mut Some(2)), Ok(()));
    assert_eq!(third.push(&mut Some(3)), Ok(()));
    assert_eq!(first.push(&mut Some(4)), Ok(()));
    assert_eq!(*puller.pull(), Some(1));
    assert_eq!(*puller.pull(), Some(2));
    assert_eq!(*puller.pull(), Some(3));
    assert_eq!(*puller.pull(), Some(4));
    assert_eq!(*puller.pull(), None);
}

#[test]
fn push_to_a_dropped_consumer_is_fatal() {
    let (mut pusher, puller) = sub_channel();
    drop(puller);
    let mut message = Some(5i32);
    assert_eq!(pusher.push(&mut message), Err(CommError::ChannelDisconnected));
    assert_eq!(message, None);
    assert_eq!(pusher.push(&mut None), Ok(()));
}

#[test]
fn pull_after_producers_are_gone_is_absent() {
    let (mut pusher, mut puller) = sub_channel();
    assert_eq!(pusher.push(&mut Some(8i32)), Ok(()));
    drop(pusher);
    assert_eq!(*puller.pull(), Some(8));
    assert_eq!(*puller.pull(), None);
    assert_eq!(*puller.pull(), None);
}

#[test]
fn accept_stores_what_came() {
    let (_pusher, mut puller): (Pusher<i32>, Puller<i32>) = sub_channel();
    assert_eq!(*puller.accept(Ok(42)), Some(42));
    assert_eq!(*puller.accept(Err(TryRecvError::Empty)), None);
    assert_eq!(*puller.accept(Ok(43)), Some(43));
    assert_eq!(*puller.accept(Err(TryRecvError::Disconnected)), None);
}

#[test]
fn settle_reports_a_failed_send() {
    assert_eq!(Pusher::<i32>::settle(Ok(())), Ok(()));
    assert_eq!(Pusher::<i32>::settle(Err(SendError(3))), Err(CommError::ChannelDisconnected));
}

#[test]
fn endpoints_serve_as_capabilities() {
    let (pusher, puller) = sub_channel::<i32>();
    let mut producers: Vec<Box<dyn Push<i32>>> = vec![Box::new(pusher.clone()), Box::new(pusher)];
    let mut consumer: Box<dyn Pull<i32>> = Box::new(puller);
    assert_eq!(*consumer.pull(), None);
    assert_eq!(producers[0].push(&mut Some(1)), Ok(()));
    assert_eq!(producers[1].push(&mut Some(2)), Ok(()));
    assert_eq!(producers[1].push(&mut None), Ok(()));
    assert_eq!(*consumer.pull(), Some(1));
    assert_eq!(*consumer.pull(), Some(2));
    assert_eq!(*consumer.pull(), None);
    drop(consumer);
    assert_eq!(producers[0].push(&mut Some(3)), Err(CommError::ChannelDisconnected));
}
