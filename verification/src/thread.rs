//! The allocator of a single worker: its event queue, and when it waits.

use std::collections::VecDeque;
use std::sync::mpsc::TryRecvError;
use std::time::Duration;
use vstd::prelude::*;

verus! {

/// Activity on a channel, as the endpoints report it.
#[derive(Clone, Copy, Debug, PartialEq, Eq, Structural)]
pub enum Event {
    /// That many messages were pushed into the channel.
    Pushed(usize),
    /// That many messages were pulled from the channel.
    Pulled(usize),
}

/// What a worker that asks to wait for events should do.
pub enum Wait {
    /// Events are queued: go on.
    Ready,
    /// Sleep until woken.
    UntilWoken,
    /// Sleep until woken, but no longer than this.
    AtMost(Duration),
}

/// Builds the allocator of a single worker.
pub struct ThreadBuilder {}

impl ThreadBuilder {
    /// The allocator, with no event queued.
    pub fn build(self) -> (thread: Thread)
        ensures
            thread@ == Seq::<(usize, Event)>::empty(),
    {
        Thread::new()
    }
}

/// The allocator of a single worker. It owns the worker's event queue.
pub struct Thread {
    events: VecDeque<(usize, Event)>,
}

impl Thread {
    /// The queued events, oldest first.
    pub closed spec fn view(&self) -> Seq<(usize, Event)> {
        self.events@
    }

    /// An allocator with no event queued.
    pub fn new() -> (thread: Thread)
        ensures
            thread@ == Seq::<(usize, Event)>::empty(),
    {
        Thread { events: VecDeque::new() }
    }

    /// A single worker is worker 0.
    pub fn index(&self) -> (index: usize)
        ensures
            index == 0,
    {
        0
    }

    /// A single worker has itself as its only peer.
    pub fn peers(&self) -> (peers: usize)
        ensures
            peers == 1,
    {
        1
    }

    /// The queued events, oldest first.
    pub fn events(&self) -> (events: &VecDeque<(usize, Event)>)
        ensures
            events@ == self@,
    {
        &self.events
    }

    /// The number of queued events.
    pub fn pending(&self) -> (count: usize)
        ensures
            count == self@.len(),
    {
        self.events.len()
    }

    /// Appends one event to the queue.
    pub fn record(&mut self, source: usize, event: Event)
        ensures
            final(self)@ == old(self)@.push((source, event)),
    {
        self.events.push_back((source, event));
    }

    /// Removes the oldest event from the queue, if there is one.
    pub fn next_event(&mut self) -> (event: Option<(usize, Event)>)
        ensures
            old(self)@.len() == 0 ==> event is None && final(self)@ == old(self)@,
            old(self)@.len() > 0 ==> event == Some(old(self)@[0]) && final(self)@ == old(
                self,
            )@.drop_first(),
    {
        let event = self.events.pop_front();
        proof {
            if old(self)@.len() > 0 {
                assert(old(self)@.drop_first() =~= old(self)@.subrange(1, old(self)@.len() as int));
            }
        }
        event
    }

    /// Queues what a receive attempt on the worker's counter inbox brought,
    /// and says whether it brought anything.
    pub fn absorb(&mut self, received: Result<(usize, Event), TryRecvError>) -> (more: bool)
        ensures
            more == received is Ok,
            received matches Ok(report) ==> final(self)@ == old(self)@.push(report),
            received is Err ==> final(self)@ == old(self)@,
    {
        match received {
            Ok(report) => {
                self.events.push_back(report);
                true
            },
            Err(_) => false,
        }
    }

    /// Whether the worker should sleep, and for how long at most: not at
    /// all while events are queued, else for the given time, or without a
    /// limit if none is given.
    pub fn await_events(&self, duration: Option<Duration>) -> (wait: Wait)
        ensures
            self@.len() > 0 ==> wait is Ready,
            self@.len() == 0 ==> match duration {
                Some(limit) => wait == Wait::AtMost(limit),
                None => wait is UntilWoken,
            },
    {
        if self.events.len() > 0 {
            Wait::Ready
        } else {
            match duration {
                Some(limit) => Wait::AtMost(limit),
                None => Wait::UntilWoken,
            }
        }
    }
}

} // verus!
